//! The items of the settings dialog, in the order the dialog shows them: category
//! titles, toggles, sliders, option lists and toggle groups, with the value each
//! starts from, and the readings of the toggles when the dialog is saved.
use vstd::prelude::*;
use crate::il2cpp::hook::umamusume::DialogOptionHome::{
    physics_update_mode_selection, toggles_saved, text_debug_after, vsync_selection, AnisoLevel,
    BgSeason, FullScreenMode, GraphicsQuality, Language, MsaaQuality, ResolutionScaling,
    SettingsToggleReadings, SettingsToggles, ShadowResolution, SpringUpdateMode, TextDebugFlags,
    TextDebugToggles,
};

verus! {

/// A category of the dialog, shown as a title.
#[derive(Clone, Copy, Debug, PartialEq, Eq, Structural)]
pub enum DialogCategory {
    General,
    Graphics,
    Gameplay,
    Advanced,
}

impl DialogCategory {
    /// The translation key of the category's name.
    pub fn label_key(&self) -> &'static str {
        match self {
            DialogCategory::General => "config_editor.general_tab",
            DialogCategory::Graphics => "config_editor.graphics_tab",
            DialogCategory::Gameplay => "config_editor.gameplay_tab",
            DialogCategory::Advanced => "config_editor.advanced_tab",
        }
    }
}

/// An on/off setting of the dialog.
#[derive(Clone, Copy, Debug, PartialEq, Eq, Structural)]
pub enum DialogToggle {
    DisableTranslations,
    AutoTranslateStories,
    AutoTranslateLocalize,
    TranslatorMode,
    LazyTranslationUpdates,
    DisableAutoUpdateCheck,
    DisableGui,
    ApplyAtlasWorkaround,
    DisableOutdatedAssetNotif,
    SkipFirstTimeSetup,
    DiscordRpc,
    AutoFullScreen,
    BlockMinimizeInFullScreen,
    WindowAlwaysOnTop,
    ForceAllowDynamicCamera,
    LiveTheaterAllowSameChara,
    SkillInfoDialog,
    DisableSkillNameTranslation,
    HideIngameUiHotkey,
    DebugMode,
    EnableFileLogging,
    EnableIpc,
    Ipv4Only,
    IpcListenAll,
    TextDebug,
    TextLog,
    TextPropertyDump,
    TextLocalizeDump,
    TextPositionDebug,
    TextPathDebug,
}

impl DialogToggle {
    /// The name of the toggle's game object, under which the dialog is read.
    pub fn game_object_name(&self) -> &'static str {
        match self {
            DialogToggle::DisableTranslations => "hachimi_disable_translations",
            DialogToggle::AutoTranslateStories => "hachimi_auto_translate_stories",
            DialogToggle::AutoTranslateLocalize => "hachimi_auto_translate_localize",
            DialogToggle::TranslatorMode => "hachimi_translator_mode",
            DialogToggle::LazyTranslationUpdates => "hachimi_lazy_translation_updates",
            DialogToggle::DisableAutoUpdateCheck => "hachimi_disable_auto_update_check",
            DialogToggle::DisableGui => "hachimi_disable_gui",
            DialogToggle::ApplyAtlasWorkaround => "hachimi_apply_atlas_workaround",
            DialogToggle::DisableOutdatedAssetNotif => "hachimi_disable_outdated_asset_notif",
            DialogToggle::SkipFirstTimeSetup => "hachimi_skip_first_time_setup",
            DialogToggle::DiscordRpc => "hachimi_discord_rpc",
            DialogToggle::AutoFullScreen => "hachimi_auto_full_screen",
            DialogToggle::BlockMinimizeInFullScreen => "hachimi_block_minimize_in_full_screen",
            DialogToggle::WindowAlwaysOnTop => "hachimi_window_always_on_top",
            DialogToggle::ForceAllowDynamicCamera => "hachimi_force_allow_dynamic_camera",
            DialogToggle::LiveTheaterAllowSameChara => "hachimi_live_theater_allow_same_chara",
            DialogToggle::SkillInfoDialog => "hachimi_skill_info_dialog",
            DialogToggle::DisableSkillNameTranslation => "hachimi_disable_skill_name_translation",
            DialogToggle::HideIngameUiHotkey => "hachimi_hide_ingame_ui_hotkey",
            DialogToggle::DebugMode => "hachimi_debug_mode",
            DialogToggle::EnableFileLogging => "hachimi_enable_file_logging",
            DialogToggle::EnableIpc => "hachimi_enable_ipc",
            DialogToggle::Ipv4Only => "hachimi_ipv4_only",
            DialogToggle::IpcListenAll => "hachimi_ipc_listen_all",
            DialogToggle::TextDebug => "hachimi_text_debug",
            DialogToggle::TextLog => "hachimi_text_log",
            DialogToggle::TextPropertyDump => "hachimi_text_property_dump",
            DialogToggle::TextLocalizeDump => "hachimi_text_localize_dump",
            DialogToggle::TextPositionDebug => "hachimi_text_position_debug",
            DialogToggle::TextPathDebug => "hachimi_text_path_debug",
        }
    }

    /// The translation key of the toggle's label.
    pub fn label_key(&self) -> &'static str {
        match self {
            DialogToggle::DisableTranslations => "config_editor.disable_translations",
            DialogToggle::AutoTranslateStories => "config_editor.auto_translate_stories",
            DialogToggle::AutoTranslateLocalize => "config_editor.auto_translate_ui",
            DialogToggle::TranslatorMode => "config_editor.translator_mode",
            DialogToggle::LazyTranslationUpdates => "config_editor.lazy_translation_updates",
            DialogToggle::DisableAutoUpdateCheck => "config_editor.disable_auto_update_check",
            DialogToggle::DisableGui => "config_editor.disable_overlay",
            DialogToggle::ApplyAtlasWorkaround => "config_editor.apply_atlas_workaround",
            DialogToggle::DisableOutdatedAssetNotif => "config_editor.disable_outdated_asset_notif",
            DialogToggle::SkipFirstTimeSetup => "config_editor.skip_first_time_setup",
            DialogToggle::DiscordRpc => "config_editor.discord_rpc",
            DialogToggle::AutoFullScreen => "config_editor.auto_full_screen",
            DialogToggle::BlockMinimizeInFullScreen => "config_editor.block_minimize_in_full_screen",
            DialogToggle::WindowAlwaysOnTop => "config_editor.window_always_on_top",
            DialogToggle::ForceAllowDynamicCamera => "config_editor.force_allow_dynamic_camera",
            DialogToggle::LiveTheaterAllowSameChara => "config_editor.live_theater_allow_same_chara",
            DialogToggle::SkillInfoDialog => "config_editor.skill_info_dialog",
            DialogToggle::DisableSkillNameTranslation => "config_editor.disable_skill_name_translation",
            DialogToggle::HideIngameUiHotkey => "config_editor.hide_ingame_ui_hotkey",
            DialogToggle::DebugMode => "config_editor.debug_mode",
            DialogToggle::EnableFileLogging => "config_editor.enable_file_logging",
            DialogToggle::EnableIpc => "config_editor.enable_ipc",
            DialogToggle::Ipv4Only => "config_editor.ipv4_only",
            DialogToggle::IpcListenAll => "config_editor.ipc_listen_all",
            DialogToggle::TextDebug => "config_editor.text_debug",
            DialogToggle::TextLog => "config_editor.text_log",
            DialogToggle::TextPropertyDump => "config_editor.text_property_dump",
            DialogToggle::TextLocalizeDump => "config_editor.text_localize_dump",
            DialogToggle::TextPositionDebug => "config_editor.text_position_debug",
            DialogToggle::TextPathDebug => "config_editor.text_path_debug",
        }
    }
}

/// A slider of the dialog. Its starting value (a float: the setting scaled for the
/// slider) is computed by the caller.
#[derive(Clone, Copy, Debug, PartialEq, Eq, Structural)]
pub enum DialogSlider {
    GuiScale,
    GuiLandscapeRatio,
    TargetFps,
    UiScale,
    UiAnimationScale,
    RenderScale,
    VirtualResMult,
    StoryChoiceAutoSelectDelay,
    StoryTcpsMultiplier,
}

impl DialogSlider {
    /// The name of the slider's game object.
    pub fn game_object_name(&self) -> &'static str {
        match self {
            DialogSlider::GuiScale => "hachimi_gui_scale",
            DialogSlider::GuiLandscapeRatio => "hachimi_gui_landscape_ratio",
            DialogSlider::TargetFps => "hachimi_target_fps",
            DialogSlider::UiScale => "hachimi_ui_scale",
            DialogSlider::UiAnimationScale => "hachimi_ui_animation_scale",
            DialogSlider::RenderScale => "hachimi_render_scale",
            DialogSlider::VirtualResMult => "hachimi_virtual_res_mult",
            DialogSlider::StoryChoiceAutoSelectDelay => "hachimi_story_choice_auto_select_delay",
            DialogSlider::StoryTcpsMultiplier => "hachimi_story_tcps_multiplier",
        }
    }

    /// The translation key of the slider's label.
    pub fn label_key(&self) -> &'static str {
        match self {
            DialogSlider::GuiScale => "config_editor.gui_scale",
            DialogSlider::GuiLandscapeRatio => "config_editor.gui_landscape_ratio",
            DialogSlider::TargetFps => "config_editor.target_fps",
            DialogSlider::UiScale => "config_editor.ui_scale",
            DialogSlider::UiAnimationScale => "config_editor.ui_animation_scale",
            DialogSlider::RenderScale => "config_editor.render_scale",
            DialogSlider::VirtualResMult => "config_editor.virtual_resolution_multiplier",
            DialogSlider::StoryChoiceAutoSelectDelay => "config_editor.story_choice_auto_select_delay",
            DialogSlider::StoryTcpsMultiplier => "config_editor.story_text_speed_multiplier",
        }
    }
}

/// A setting chosen from a list that opens in a dialog of its own.
#[derive(Clone, Copy, Debug, PartialEq, Eq, Structural)]
pub enum DialogChoice {
    Language,
    Msaa,
    AnisoLevel,
    ShadowResolution,
    GraphicsQuality,
    VsyncCount,
    PhysicsUpdateMode,
    HomescreenBgseason,
}

impl DialogChoice {
    /// The name of the option button's game object.
    pub fn game_object_name(&self) -> &'static str {
        match self {
            DialogChoice::Language => "hachimi_language",
            DialogChoice::Msaa => "hachimi_msaa",
            DialogChoice::AnisoLevel => "hachimi_aniso_level",
            DialogChoice::ShadowResolution => "hachimi_shadow_resolution",
            DialogChoice::GraphicsQuality => "hachimi_graphics_quality",
            DialogChoice::VsyncCount => "hachimi_vsync_count",
            DialogChoice::PhysicsUpdateMode => "hachimi_physics_update_mode",
            DialogChoice::HomescreenBgseason => "hachimi_homescreen_bgseason",
        }
    }

    /// The translation key of the option's label.
    pub fn label_key(&self) -> &'static str {
        match self {
            DialogChoice::Language => "config_editor.language",
            DialogChoice::Msaa => "config_editor.msaa",
            DialogChoice::AnisoLevel => "config_editor.aniso_level",
            DialogChoice::ShadowResolution => "config_editor.shadow_resolution",
            DialogChoice::GraphicsQuality => "config_editor.graphics_quality",
            DialogChoice::VsyncCount => "config_editor.vsync",
            DialogChoice::PhysicsUpdateMode => "config_editor.physics_update_mode",
            DialogChoice::HomescreenBgseason => "config_editor.homescreen_bgseason",
        }
    }
}

/// A setting chosen with a group of toggles, one of which is on.
#[derive(Clone, Copy, Debug, PartialEq, Eq, Structural)]
pub enum DialogGroup {
    FullScreenMode,
    ResolutionScaling,
}

impl DialogGroup {
    /// The name of the group's game object, under which the dialog is read.
    pub fn game_object_name(&self) -> &'static str {
        match self {
            DialogGroup::FullScreenMode => "hachimi_full_screen_mode",
            DialogGroup::ResolutionScaling => "hachimi_resolution_scaling",
        }
    }

    /// The translation key of the group's label.
    pub fn label_key(&self) -> &'static str {
        match self {
            DialogGroup::FullScreenMode => "config_editor.full_screen_mode",
            DialogGroup::ResolutionScaling => "config_editor.resolution_scaling",
        }
    }

    /// The translation keys of the group's options, in order.
    pub fn option_keys(&self) -> (r: Vec<&'static str>)
        ensures
            r.len() == match self {
                DialogGroup::FullScreenMode => 2nat,
                DialogGroup::ResolutionScaling => 3nat,
            },
    {
        let mut r: Vec<&'static str> = Vec::new();
        match self {
            DialogGroup::FullScreenMode => {
                r.push("config_editor.full_screen_mode_exclusive");
                r.push("config_editor.full_screen_mode_borderless");
            },
            DialogGroup::ResolutionScaling => {
                r.push("config_editor.resolution_scaling_default");
                r.push("config_editor.resolution_scaling_ssize");
                r.push("config_editor.resolution_scaling_wsize");
            },
        }
        r
    }
}

/// One item of the settings dialog and the value it starts from.
#[derive(Clone, Copy, Debug, PartialEq, Eq, Structural)]
pub enum DialogItem {
    Title(DialogCategory),
    Toggle { toggle: DialogToggle, on: bool },
    Slider { slider: DialogSlider, min: i32, max: i32, whole_numbers: bool },
    Choice { choice: DialogChoice, selected: i32 },
    Group { group: DialogGroup, selected: i32 },
}

/// The configuration the dialog is opened with, as far as its items show it.
/// `windows` tells whether the Windows-only items are shown.
#[derive(Clone, Copy, Debug)]
pub struct DialogSettings {
    pub toggles: SettingsToggles,
    pub text_debug: TextDebugFlags,
    pub language: Language,
    pub msaa: MsaaQuality,
    pub aniso_level: AnisoLevel,
    pub shadow_resolution: ShadowResolution,
    pub graphics_quality: GraphicsQuality,
    pub physics_update_mode: Option<SpringUpdateMode>,
    pub bg_season: BgSeason,
    pub vsync_count: i32,
    pub full_screen_mode: FullScreenMode,
    pub resolution_scaling: ResolutionScaling,
    pub windows: bool,
}

/// The items of the general settings, in order.
pub open spec fn general_items_spec(c: DialogSettings) -> Seq<DialogItem> {
    seq![
        DialogItem::Title(DialogCategory::General),
        DialogItem::Choice { choice: DialogChoice::Language, selected: c.language.selection() },
        DialogItem::Toggle { toggle: DialogToggle::DisableTranslations, on: c.toggles.disable_translations },
        DialogItem::Toggle { toggle: DialogToggle::AutoTranslateStories, on: c.toggles.auto_translate_stories },
        DialogItem::Toggle { toggle: DialogToggle::AutoTranslateLocalize, on: c.toggles.auto_translate_localize },
        DialogItem::Toggle { toggle: DialogToggle::TranslatorMode, on: c.toggles.translator_mode },
        DialogItem::Toggle { toggle: DialogToggle::LazyTranslationUpdates, on: c.toggles.lazy_translation_updates },
        DialogItem::Toggle { toggle: DialogToggle::DisableAutoUpdateCheck, on: c.toggles.disable_auto_update_check },
        DialogItem::Toggle { toggle: DialogToggle::DisableGui, on: c.toggles.disable_gui },
        DialogItem::Toggle { toggle: DialogToggle::ApplyAtlasWorkaround, on: c.toggles.apply_atlas_workaround },
        DialogItem::Toggle { toggle: DialogToggle::DisableOutdatedAssetNotif, on: c.toggles.disable_outdated_asset_notif },
        DialogItem::Toggle { toggle: DialogToggle::SkipFirstTimeSetup, on: c.toggles.skip_first_time_setup },
        DialogItem::Slider { slider: DialogSlider::GuiScale, min: 25, max: 200, whole_numbers: true },
    ]
}

fn general_items(c: &DialogSettings) -> (items: Vec<DialogItem>)
    ensures
        items@ == general_items_spec(*c),
{
    let mut items: Vec<DialogItem> = Vec::new();
    items.push(DialogItem::Title(DialogCategory::General));
    items.push(DialogItem::Choice { choice: DialogChoice::Language, selected: c.language.selection() });
    items.push(DialogItem::Toggle { toggle: DialogToggle::DisableTranslations, on: c.toggles.disable_translations });
    items.push(DialogItem::Toggle { toggle: DialogToggle::AutoTranslateStories, on: c.toggles.auto_translate_stories });
    items.push(DialogItem::Toggle { toggle: DialogToggle::AutoTranslateLocalize, on: c.toggles.auto_translate_localize });
    items.push(DialogItem::Toggle { toggle: DialogToggle::TranslatorMode, on: c.toggles.translator_mode });
    items.push(DialogItem::Toggle { toggle: DialogToggle::LazyTranslationUpdates, on: c.toggles.lazy_translation_updates });
    items.push(DialogItem::Toggle { toggle: DialogToggle::DisableAutoUpdateCheck, on: c.toggles.disable_auto_update_check });
    items.push(DialogItem::Toggle { toggle: DialogToggle::DisableGui, on: c.toggles.disable_gui });
    items.push(DialogItem::Toggle { toggle: DialogToggle::ApplyAtlasWorkaround, on: c.toggles.apply_atlas_workaround });
    items.push(DialogItem::Toggle { toggle: DialogToggle::DisableOutdatedAssetNotif, on: c.toggles.disable_outdated_asset_notif });
    items.push(DialogItem::Toggle { toggle: DialogToggle::SkipFirstTimeSetup, on: c.toggles.skip_first_time_setup });
    items.push(DialogItem::Slider { slider: DialogSlider::GuiScale, min: 25, max: 200, whole_numbers: true });
    proof {
        assert(items@ =~= general_items_spec(*c));
    }
    items
}

/// The items of the Windows-only general settings, in order.
pub open spec fn windows_general_items_spec(c: DialogSettings) -> Seq<DialogItem> {
    seq![
        DialogItem::Toggle { toggle: DialogToggle::DiscordRpc, on: c.toggles.discord_rpc },
        DialogItem::Slider { slider: DialogSlider::GuiLandscapeRatio, min: 25, max: 100, whole_numbers: true },
    ]
}

fn windows_general_items(c: &DialogSettings) -> (items: Vec<DialogItem>)
    ensures
        items@ == windows_general_items_spec(*c),
{
    let mut items: Vec<DialogItem> = Vec::new();
    items.push(DialogItem::Toggle { toggle: DialogToggle::DiscordRpc, on: c.toggles.discord_rpc });
    items.push(DialogItem::Slider { slider: DialogSlider::GuiLandscapeRatio, min: 25, max: 100, whole_numbers: true });
    proof {
        assert(items@ =~= windows_general_items_spec(*c));
    }
    items
}

/// The items of the graphics settings, in order.
pub open spec fn graphics_items_spec(c: DialogSettings) -> Seq<DialogItem> {
    seq![
        DialogItem::Title(DialogCategory::Graphics),
        DialogItem::Slider { slider: DialogSlider::TargetFps, min: 30, max: 240, whole_numbers: true },
        DialogItem::Slider { slider: DialogSlider::UiScale, min: 1, max: 100, whole_numbers: false },
        DialogItem::Slider { slider: DialogSlider::UiAnimationScale, min: 1, max: 100, whole_numbers: false },
        DialogItem::Slider { slider: DialogSlider::RenderScale, min: 1, max: 100, whole_numbers: false },
        DialogItem::Slider { slider: DialogSlider::VirtualResMult, min: 10, max: 40, whole_numbers: false },
        DialogItem::Choice { choice: DialogChoice::Msaa, selected: c.msaa.selection() },
        DialogItem::Choice { choice: DialogChoice::AnisoLevel, selected: c.aniso_level.selection() },
        DialogItem::Choice { choice: DialogChoice::ShadowResolution, selected: c.shadow_resolution.selection() },
        DialogItem::Choice { choice: DialogChoice::GraphicsQuality, selected: c.graphics_quality.selection() },
    ]
}

fn graphics_items(c: &DialogSettings) -> (items: Vec<DialogItem>)
    ensures
        items@ == graphics_items_spec(*c),
{
    let mut items: Vec<DialogItem> = Vec::new();
    items.push(DialogItem::Title(DialogCategory::Graphics));
    items.push(DialogItem::Slider { slider: DialogSlider::TargetFps, min: 30, max: 240, whole_numbers: true });
    items.push(DialogItem::Slider { slider: DialogSlider::UiScale, min: 1, max: 100, whole_numbers: false });
    items.push(DialogItem::Slider { slider: DialogSlider::UiAnimationScale, min: 1, max: 100, whole_numbers: false });
    items.push(DialogItem::Slider { slider: DialogSlider::RenderScale, min: 1, max: 100, whole_numbers: false });
    items.push(DialogItem::Slider { slider: DialogSlider::VirtualResMult, min: 10, max: 40, whole_numbers: false });
    items.push(DialogItem::Choice { choice: DialogChoice::Msaa, selected: c.msaa.selection() });
    items.push(DialogItem::Choice { choice: DialogChoice::AnisoLevel, selected: c.aniso_level.selection() });
    items.push(DialogItem::Choice { choice: DialogChoice::ShadowResolution, selected: c.shadow_resolution.selection() });
    items.push(DialogItem::Choice { choice: DialogChoice::GraphicsQuality, selected: c.graphics_quality.selection() });
    proof {
        assert(items@ =~= graphics_items_spec(*c));
    }
    items
}

/// The items of the Windows-only graphics settings, in order.
pub open spec fn windows_graphics_items_spec(c: DialogSettings) -> Seq<DialogItem> {
    seq![
        DialogItem::Toggle { toggle: DialogToggle::AutoFullScreen, on: c.toggles.auto_full_screen },
        DialogItem::Group { group: DialogGroup::FullScreenMode, selected: c.full_screen_mode.selection() },
        DialogItem::Toggle { toggle: DialogToggle::BlockMinimizeInFullScreen, on: c.toggles.block_minimize_in_full_screen },
        DialogItem::Group { group: DialogGroup::ResolutionScaling, selected: c.resolution_scaling.selection() },
        DialogItem::Toggle { toggle: DialogToggle::WindowAlwaysOnTop, on: c.toggles.window_always_on_top },
        DialogItem::Choice { choice: DialogChoice::VsyncCount, selected: vsync_selection(c.vsync_count) },
    ]
}

fn windows_graphics_items(c: &DialogSettings) -> (items: Vec<DialogItem>)
    ensures
        items@ == windows_graphics_items_spec(*c),
{
    let mut items: Vec<DialogItem> = Vec::new();
    items.push(DialogItem::Toggle { toggle: DialogToggle::AutoFullScreen, on: c.toggles.auto_full_screen });
    items.push(DialogItem::Group { group: DialogGroup::FullScreenMode, selected: c.full_screen_mode.selection() });
    items.push(DialogItem::Toggle { toggle: DialogToggle::BlockMinimizeInFullScreen, on: c.toggles.block_minimize_in_full_screen });
    items.push(DialogItem::Group { group: DialogGroup::ResolutionScaling, selected: c.resolution_scaling.selection() });
    items.push(DialogItem::Toggle { toggle: DialogToggle::WindowAlwaysOnTop, on: c.toggles.window_always_on_top });
    items.push(DialogItem::Choice { choice: DialogChoice::VsyncCount, selected: vsync_selection(c.vsync_count) });
    proof {
        assert(items@ =~= windows_graphics_items_spec(*c));
    }
    items
}

/// The items of the gameplay settings, in order.
pub open spec fn gameplay_items_spec(c: DialogSettings) -> Seq<DialogItem> {
    seq![
        DialogItem::Title(DialogCategory::Gameplay),
        DialogItem::Slider { slider: DialogSlider::StoryChoiceAutoSelectDelay, min: 1, max: 100, whole_numbers: false },
        DialogItem::Slider { slider: DialogSlider::StoryTcpsMultiplier, min: 1, max: 100, whole_numbers: false },
        DialogItem::Toggle { toggle: DialogToggle::ForceAllowDynamicCamera, on: c.toggles.force_allow_dynamic_camera },
        DialogItem::Toggle { toggle: DialogToggle::LiveTheaterAllowSameChara, on: c.toggles.live_theater_allow_same_chara },
        DialogItem::Toggle { toggle: DialogToggle::SkillInfoDialog, on: c.toggles.skill_info_dialog },
        DialogItem::Toggle { toggle: DialogToggle::DisableSkillNameTranslation, on: c.toggles.disable_skill_name_translation },
        DialogItem::Choice { choice: DialogChoice::PhysicsUpdateMode, selected: physics_update_mode_selection(c.physics_update_mode) },
        DialogItem::Choice { choice: DialogChoice::HomescreenBgseason, selected: c.bg_season.selection() },
        DialogItem::Toggle { toggle: DialogToggle::HideIngameUiHotkey, on: c.toggles.hide_ingame_ui_hotkey },
    ]
}

fn gameplay_items(c: &DialogSettings) -> (items: Vec<DialogItem>)
    ensures
        items@ == gameplay_items_spec(*c),
{
    let mut items: Vec<DialogItem> = Vec::new();
    items.push(DialogItem::Title(DialogCategory::Gameplay));
    items.push(DialogItem::Slider { slider: DialogSlider::StoryChoiceAutoSelectDelay, min: 1, max: 100, whole_numbers: false });
    items.push(DialogItem::Slider { slider: DialogSlider::StoryTcpsMultiplier, min: 1, max: 100, whole_numbers: false });
    items.push(DialogItem::Toggle { toggle: DialogToggle::ForceAllowDynamicCamera, on: c.toggles.force_allow_dynamic_camera });
    items.push(DialogItem::Toggle { toggle: DialogToggle::LiveTheaterAllowSameChara, on: c.toggles.live_theater_allow_same_chara });
    items.push(DialogItem::Toggle { toggle: DialogToggle::SkillInfoDialog, on: c.toggles.skill_info_dialog });
    items.push(DialogItem::Toggle { toggle: DialogToggle::DisableSkillNameTranslation, on: c.toggles.disable_skill_name_translation });
    items.push(DialogItem::Choice { choice: DialogChoice::PhysicsUpdateMode, selected: physics_update_mode_selection(c.physics_update_mode) });
    items.push(DialogItem::Choice { choice: DialogChoice::HomescreenBgseason, selected: c.bg_season.selection() });
    items.push(DialogItem::Toggle { toggle: DialogToggle::HideIngameUiHotkey, on: c.toggles.hide_ingame_ui_hotkey });
    proof {
        assert(items@ =~= gameplay_items_spec(*c));
    }
    items
}

/// The items of the advanced settings, in order.
pub open spec fn advanced_items_spec(c: DialogSettings) -> Seq<DialogItem> {
    seq![
        DialogItem::Title(DialogCategory::Advanced),
        DialogItem::Toggle { toggle: DialogToggle::DebugMode, on: c.toggles.debug_mode },
        DialogItem::Toggle { toggle: DialogToggle::TextDebug, on: c.text_debug.text_debug },
        DialogItem::Toggle { toggle: DialogToggle::TextLog, on: c.text_debug.text_log },
        DialogItem::Toggle { toggle: DialogToggle::TextPropertyDump, on: c.text_debug.text_property_dump },
        DialogItem::Toggle { toggle: DialogToggle::TextLocalizeDump, on: c.text_debug.text_localize_dump },
        DialogItem::Toggle { toggle: DialogToggle::TextPositionDebug, on: c.text_debug.text_position_debug },
        DialogItem::Toggle { toggle: DialogToggle::TextPathDebug, on: c.text_debug.text_path_debug },
        DialogItem::Toggle { toggle: DialogToggle::EnableFileLogging, on: c.toggles.enable_file_logging },
        DialogItem::Toggle { toggle: DialogToggle::EnableIpc, on: c.toggles.enable_ipc },
        DialogItem::Toggle { toggle: DialogToggle::IpcListenAll, on: c.toggles.ipc_listen_all },
        DialogItem::Toggle { toggle: DialogToggle::Ipv4Only, on: c.toggles.ipv4_only },
    ]
}

fn advanced_items(c: &DialogSettings) -> (items: Vec<DialogItem>)
    ensures
        items@ == advanced_items_spec(*c),
{
    let mut items: Vec<DialogItem> = Vec::new();
    items.push(DialogItem::Title(DialogCategory::Advanced));
    items.push(DialogItem::Toggle { toggle: DialogToggle::DebugMode, on: c.toggles.debug_mode });
    items.push(DialogItem::Toggle { toggle: DialogToggle::TextDebug, on: c.text_debug.text_debug });
    items.push(DialogItem::Toggle { toggle: DialogToggle::TextLog, on: c.text_debug.text_log });
    items.push(DialogItem::Toggle { toggle: DialogToggle::TextPropertyDump, on: c.text_debug.text_property_dump });
    items.push(DialogItem::Toggle { toggle: DialogToggle::TextLocalizeDump, on: c.text_debug.text_localize_dump });
    items.push(DialogItem::Toggle { toggle: DialogToggle::TextPositionDebug, on: c.text_debug.text_position_debug });
    items.push(DialogItem::Toggle { toggle: DialogToggle::TextPathDebug, on: c.text_debug.text_path_debug });
    items.push(DialogItem::Toggle { toggle: DialogToggle::EnableFileLogging, on: c.toggles.enable_file_logging });
    items.push(DialogItem::Toggle { toggle: DialogToggle::EnableIpc, on: c.toggles.enable_ipc });
    items.push(DialogItem::Toggle { toggle: DialogToggle::IpcListenAll, on: c.toggles.ipc_listen_all });
    items.push(DialogItem::Toggle { toggle: DialogToggle::Ipv4Only, on: c.toggles.ipv4_only });
    proof {
        assert(items@ =~= advanced_items_spec(*c));
    }
    items
}

/// The items of the dialog opened with `c`, in order: the general, graphics,
/// gameplay and advanced settings, each with its Windows-only items on Windows.
pub open spec fn dialog_items_spec(c: DialogSettings) -> Seq<DialogItem> {
    general_items_spec(c)
        + (if c.windows { windows_general_items_spec(c) } else { Seq::empty() })
        + graphics_items_spec(c)
        + (if c.windows { windows_graphics_items_spec(c) } else { Seq::empty() })
        + gameplay_items_spec(c)
        + advanced_items_spec(c)
}

/// The items of the dialog opened with `c`, in the order it shows them.
pub fn settings_dialog_items(c: &DialogSettings) -> (items: Vec<DialogItem>)
    ensures
        items@ == dialog_items_spec(*c),
{
    let mut items = general_items(c);
    if c.windows {
        let mut more = windows_general_items(c);
        items.append(&mut more);
    }
    let mut more = graphics_items(c);
    items.append(&mut more);
    if c.windows {
        let mut more = windows_graphics_items(c);
        items.append(&mut more);
    }
    let mut more = gameplay_items(c);
    items.append(&mut more);
    let mut more = advanced_items(c);
    items.append(&mut more);
    items
}

/// Whether the toggle `t` is shown (the Windows-only ones only on Windows).
pub open spec fn toggle_shown(t: DialogToggle, windows: bool) -> bool {
    match t {
        DialogToggle::DiscordRpc => windows,
        DialogToggle::AutoFullScreen => windows,
        DialogToggle::BlockMinimizeInFullScreen => windows,
        DialogToggle::WindowAlwaysOnTop => windows,
        _ => true,
    }
}

/// The setting that the toggle `t` shows.
pub open spec fn toggle_setting(c: DialogSettings, t: DialogToggle) -> bool {
    match t {
        DialogToggle::DisableTranslations => c.toggles.disable_translations,
        DialogToggle::AutoTranslateStories => c.toggles.auto_translate_stories,
        DialogToggle::AutoTranslateLocalize => c.toggles.auto_translate_localize,
        DialogToggle::TranslatorMode => c.toggles.translator_mode,
        DialogToggle::LazyTranslationUpdates => c.toggles.lazy_translation_updates,
        DialogToggle::DisableAutoUpdateCheck => c.toggles.disable_auto_update_check,
        DialogToggle::DisableGui => c.toggles.disable_gui,
        DialogToggle::ApplyAtlasWorkaround => c.toggles.apply_atlas_workaround,
        DialogToggle::DisableOutdatedAssetNotif => c.toggles.disable_outdated_asset_notif,
        DialogToggle::SkipFirstTimeSetup => c.toggles.skip_first_time_setup,
        DialogToggle::DiscordRpc => c.toggles.discord_rpc,
        DialogToggle::AutoFullScreen => c.toggles.auto_full_screen,
        DialogToggle::BlockMinimizeInFullScreen => c.toggles.block_minimize_in_full_screen,
        DialogToggle::WindowAlwaysOnTop => c.toggles.window_always_on_top,
        DialogToggle::ForceAllowDynamicCamera => c.toggles.force_allow_dynamic_camera,
        DialogToggle::LiveTheaterAllowSameChara => c.toggles.live_theater_allow_same_chara,
        DialogToggle::SkillInfoDialog => c.toggles.skill_info_dialog,
        DialogToggle::DisableSkillNameTranslation => c.toggles.disable_skill_name_translation,
        DialogToggle::HideIngameUiHotkey => c.toggles.hide_ingame_ui_hotkey,
        DialogToggle::DebugMode => c.toggles.debug_mode,
        DialogToggle::EnableFileLogging => c.toggles.enable_file_logging,
        DialogToggle::EnableIpc => c.toggles.enable_ipc,
        DialogToggle::Ipv4Only => c.toggles.ipv4_only,
        DialogToggle::IpcListenAll => c.toggles.ipc_listen_all,
        DialogToggle::TextDebug => c.text_debug.text_debug,
        DialogToggle::TextLog => c.text_debug.text_log,
        DialogToggle::TextPropertyDump => c.text_debug.text_property_dump,
        DialogToggle::TextLocalizeDump => c.text_debug.text_localize_dump,
        DialogToggle::TextPositionDebug => c.text_debug.text_position_debug,
        DialogToggle::TextPathDebug => c.text_debug.text_path_debug,
    }
}

/// The toggles of the settings as read from the dialog, where `read` gives what the
/// toggle with a given name reads.
pub open spec fn readings_of(read: spec_fn(DialogToggle) -> Option<bool>) -> SettingsToggleReadings {
    SettingsToggleReadings {
        disable_translations: read(DialogToggle::DisableTranslations),
        auto_translate_stories: read(DialogToggle::AutoTranslateStories),
        auto_translate_localize: read(DialogToggle::AutoTranslateLocalize),
        translator_mode: read(DialogToggle::TranslatorMode),
        lazy_translation_updates: read(DialogToggle::LazyTranslationUpdates),
        disable_auto_update_check: read(DialogToggle::DisableAutoUpdateCheck),
        disable_gui: read(DialogToggle::DisableGui),
        apply_atlas_workaround: read(DialogToggle::ApplyAtlasWorkaround),
        disable_outdated_asset_notif: read(DialogToggle::DisableOutdatedAssetNotif),
        skip_first_time_setup: read(DialogToggle::SkipFirstTimeSetup),
        discord_rpc: read(DialogToggle::DiscordRpc),
        auto_full_screen: read(DialogToggle::AutoFullScreen),
        block_minimize_in_full_screen: read(DialogToggle::BlockMinimizeInFullScreen),
        window_always_on_top: read(DialogToggle::WindowAlwaysOnTop),
        force_allow_dynamic_camera: read(DialogToggle::ForceAllowDynamicCamera),
        live_theater_allow_same_chara: read(DialogToggle::LiveTheaterAllowSameChara),
        skill_info_dialog: read(DialogToggle::SkillInfoDialog),
        disable_skill_name_translation: read(DialogToggle::DisableSkillNameTranslation),
        hide_ingame_ui_hotkey: read(DialogToggle::HideIngameUiHotkey),
        debug_mode: read(DialogToggle::DebugMode),
        enable_file_logging: read(DialogToggle::EnableFileLogging),
        enable_ipc: read(DialogToggle::EnableIpc),
        ipv4_only: read(DialogToggle::Ipv4Only),
        ipc_listen_all: read(DialogToggle::IpcListenAll),
    }
}

/// The text debugging toggles as read from the dialog.
pub open spec fn text_debug_readings_of(read: spec_fn(DialogToggle) -> Option<bool>) -> TextDebugToggles {
    TextDebugToggles {
        text_debug: read(DialogToggle::TextDebug),
        text_log: read(DialogToggle::TextLog),
        text_property_dump: read(DialogToggle::TextPropertyDump),
        text_localize_dump: read(DialogToggle::TextLocalizeDump),
        text_position_debug: read(DialogToggle::TextPositionDebug),
        text_path_debug: read(DialogToggle::TextPathDebug),
    }
}

/// Reads the toggles of the settings from the dialog, each under its own toggle
/// (`read` is given the toggle and reads it under its game object name).
pub fn read_settings_toggles<F: Fn(DialogToggle) -> Option<bool>>(read: F) -> (r: SettingsToggleReadings)
    requires
        forall|t: DialogToggle| read.requires((t,)),
    ensures
        call_ensures(read, (DialogToggle::DisableTranslations,), r.disable_translations),
        call_ensures(read, (DialogToggle::AutoTranslateStories,), r.auto_translate_stories),
        call_ensures(read, (DialogToggle::AutoTranslateLocalize,), r.auto_translate_localize),
        call_ensures(read, (DialogToggle::TranslatorMode,), r.translator_mode),
        call_ensures(read, (DialogToggle::LazyTranslationUpdates,), r.lazy_translation_updates),
        call_ensures(read, (DialogToggle::DisableAutoUpdateCheck,), r.disable_auto_update_check),
        call_ensures(read, (DialogToggle::DisableGui,), r.disable_gui),
        call_ensures(read, (DialogToggle::ApplyAtlasWorkaround,), r.apply_atlas_workaround),
        call_ensures(read, (DialogToggle::DisableOutdatedAssetNotif,), r.disable_outdated_asset_notif),
        call_ensures(read, (DialogToggle::SkipFirstTimeSetup,), r.skip_first_time_setup),
        call_ensures(read, (DialogToggle::DiscordRpc,), r.discord_rpc),
        call_ensures(read, (DialogToggle::AutoFullScreen,), r.auto_full_screen),
        call_ensures(read, (DialogToggle::BlockMinimizeInFullScreen,), r.block_minimize_in_full_screen),
        call_ensures(read, (DialogToggle::WindowAlwaysOnTop,), r.window_always_on_top),
        call_ensures(read, (DialogToggle::ForceAllowDynamicCamera,), r.force_allow_dynamic_camera),
        call_ensures(read, (DialogToggle::LiveTheaterAllowSameChara,), r.live_theater_allow_same_chara),
        call_ensures(read, (DialogToggle::SkillInfoDialog,), r.skill_info_dialog),
        call_ensures(read, (DialogToggle::DisableSkillNameTranslation,), r.disable_skill_name_translation),
        call_ensures(read, (DialogToggle::HideIngameUiHotkey,), r.hide_ingame_ui_hotkey),
        call_ensures(read, (DialogToggle::DebugMode,), r.debug_mode),
        call_ensures(read, (DialogToggle::EnableFileLogging,), r.enable_file_logging),
        call_ensures(read, (DialogToggle::EnableIpc,), r.enable_ipc),
        call_ensures(read, (DialogToggle::Ipv4Only,), r.ipv4_only),
        call_ensures(read, (DialogToggle::IpcListenAll,), r.ipc_listen_all),
{
    let disable_translations = read(DialogToggle::DisableTranslations);
    let auto_translate_stories = read(DialogToggle::AutoTranslateStories);
    let auto_translate_localize = read(DialogToggle::AutoTranslateLocalize);
    let translator_mode = read(DialogToggle::TranslatorMode);
    let lazy_translation_updates = read(DialogToggle::LazyTranslationUpdates);
    let disable_auto_update_check = read(DialogToggle::DisableAutoUpdateCheck);
    let disable_gui = read(DialogToggle::DisableGui);
    let apply_atlas_workaround = read(DialogToggle::ApplyAtlasWorkaround);
    let disable_outdated_asset_notif = read(DialogToggle::DisableOutdatedAssetNotif);
    let skip_first_time_setup = read(DialogToggle::SkipFirstTimeSetup);
    let discord_rpc = read(DialogToggle::DiscordRpc);
    let auto_full_screen = read(DialogToggle::AutoFullScreen);
    let block_minimize_in_full_screen = read(DialogToggle::BlockMinimizeInFullScreen);
    let window_always_on_top = read(DialogToggle::WindowAlwaysOnTop);
    let force_allow_dynamic_camera = read(DialogToggle::ForceAllowDynamicCamera);
    let live_theater_allow_same_chara = read(DialogToggle::LiveTheaterAllowSameChara);
    let skill_info_dialog = read(DialogToggle::SkillInfoDialog);
    let disable_skill_name_translation = read(DialogToggle::DisableSkillNameTranslation);
    let hide_ingame_ui_hotkey = read(DialogToggle::HideIngameUiHotkey);
    let debug_mode = read(DialogToggle::DebugMode);
    let enable_file_logging = read(DialogToggle::EnableFileLogging);
    let enable_ipc = read(DialogToggle::EnableIpc);
    let ipv4_only = read(DialogToggle::Ipv4Only);
    let ipc_listen_all = read(DialogToggle::IpcListenAll);
    SettingsToggleReadings {
        disable_translations,
        auto_translate_stories,
        auto_translate_localize,
        translator_mode,
        lazy_translation_updates,
        disable_auto_update_check,
        disable_gui,
        apply_atlas_workaround,
        disable_outdated_asset_notif,
        skip_first_time_setup,
        discord_rpc,
        auto_full_screen,
        block_minimize_in_full_screen,
        window_always_on_top,
        force_allow_dynamic_camera,
        live_theater_allow_same_chara,
        skill_info_dialog,
        disable_skill_name_translation,
        hide_ingame_ui_hotkey,
        debug_mode,
        enable_file_logging,
        enable_ipc,
        ipv4_only,
        ipc_listen_all,
    }
}

/// Reads the text debugging toggles from the dialog, each under its own toggle.
pub fn read_text_debug_toggles<F: Fn(DialogToggle) -> Option<bool>>(read: F) -> (r: TextDebugToggles)
    requires
        forall|t: DialogToggle| read.requires((t,)),
    ensures
        call_ensures(read, (DialogToggle::TextDebug,), r.text_debug),
        call_ensures(read, (DialogToggle::TextLog,), r.text_log),
        call_ensures(read, (DialogToggle::TextPropertyDump,), r.text_property_dump),
        call_ensures(read, (DialogToggle::TextLocalizeDump,), r.text_localize_dump),
        call_ensures(read, (DialogToggle::TextPositionDebug,), r.text_position_debug),
        call_ensures(read, (DialogToggle::TextPathDebug,), r.text_path_debug),
{
    let text_debug = read(DialogToggle::TextDebug);
    let text_log = read(DialogToggle::TextLog);
    let text_property_dump = read(DialogToggle::TextPropertyDump);
    let text_localize_dump = read(DialogToggle::TextLocalizeDump);
    let text_position_debug = read(DialogToggle::TextPositionDebug);
    let text_path_debug = read(DialogToggle::TextPathDebug);
    TextDebugToggles {
        text_debug,
        text_log,
        text_property_dump,
        text_localize_dump,
        text_position_debug,
        text_path_debug,
    }
}

/// What is in `a` or in `b` is in `a + b`.
proof fn lemma_in_concat(a: Seq<DialogItem>, b: Seq<DialogItem>, x: DialogItem)
    ensures
        a.contains(x) ==> (a + b).contains(x),
        b.contains(x) ==> (a + b).contains(x),
{
    if a.contains(x) {
        let i = choose|i: int| 0 <= i < a.len() && a[i] == x;
        assert((a + b)[i] == x);
    }
    if b.contains(x) {
        let j = choose|j: int| 0 <= j < b.len() && b[j] == x;
        assert((a + b)[a.len() + j] == x);
    }
}

/// The toggles among the general settings.
pub open spec fn in_general_items(t: DialogToggle) -> bool {
    match t {
        DialogToggle::DisableTranslations => true,
        DialogToggle::AutoTranslateStories => true,
        DialogToggle::AutoTranslateLocalize => true,
        DialogToggle::TranslatorMode => true,
        DialogToggle::LazyTranslationUpdates => true,
        DialogToggle::DisableAutoUpdateCheck => true,
        DialogToggle::DisableGui => true,
        DialogToggle::ApplyAtlasWorkaround => true,
        DialogToggle::DisableOutdatedAssetNotif => true,
        DialogToggle::SkipFirstTimeSetup => true,
        _ => false,
    }
}

proof fn lemma_general_toggle(c: DialogSettings, t: DialogToggle)
    requires
        in_general_items(t),
    ensures
        general_items_spec(c).contains(DialogItem::Toggle { toggle: t, on: toggle_setting(c, t) }),
{
    let items = general_items_spec(c);
    let target = DialogItem::Toggle { toggle: t, on: toggle_setting(c, t) };
    match t {
        DialogToggle::DisableTranslations => {
            assert(items[2] == target);
        },
        DialogToggle::AutoTranslateStories => {
            assert(items[3] == target);
        },
        DialogToggle::AutoTranslateLocalize => {
            assert(items[4] == target);
        },
        DialogToggle::TranslatorMode => {
            assert(items[5] == target);
        },
        DialogToggle::LazyTranslationUpdates => {
            assert(items[6] == target);
        },
        DialogToggle::DisableAutoUpdateCheck => {
            assert(items[7] == target);
        },
        DialogToggle::DisableGui => {
            assert(items[8] == target);
        },
        DialogToggle::ApplyAtlasWorkaround => {
            assert(items[9] == target);
        },
        DialogToggle::DisableOutdatedAssetNotif => {
            assert(items[10] == target);
        },
        DialogToggle::SkipFirstTimeSetup => {
            assert(items[11] == target);
        },
        _ => {},
    }
}

/// The toggles among the Windows-only general settings.
pub open spec fn in_windows_general_items(t: DialogToggle) -> bool {
    match t {
        DialogToggle::DiscordRpc => true,
        _ => false,
    }
}

proof fn lemma_windows_general_toggle(c: DialogSettings, t: DialogToggle)
    requires
        in_windows_general_items(t),
    ensures
        windows_general_items_spec(c).contains(DialogItem::Toggle { toggle: t, on: toggle_setting(c, t) }),
{
    let items = windows_general_items_spec(c);
    let target = DialogItem::Toggle { toggle: t, on: toggle_setting(c, t) };
    match t {
        DialogToggle::DiscordRpc => {
            assert(items[0] == target);
        },
        _ => {},
    }
}

/// The toggles among the Windows-only graphics settings.
pub open spec fn in_windows_graphics_items(t: DialogToggle) -> bool {
    match t {
        DialogToggle::AutoFullScreen => true,
        DialogToggle::BlockMinimizeInFullScreen => true,
        DialogToggle::WindowAlwaysOnTop => true,
        _ => false,
    }
}

proof fn lemma_windows_graphics_toggle(c: DialogSettings, t: DialogToggle)
    requires
        in_windows_graphics_items(t),
    ensures
        windows_graphics_items_spec(c).contains(DialogItem::Toggle { toggle: t, on: toggle_setting(c, t) }),
{
    let items = windows_graphics_items_spec(c);
    let target = DialogItem::Toggle { toggle: t, on: toggle_setting(c, t) };
    match t {
        DialogToggle::AutoFullScreen => {
            assert(items[0] == target);
        },
        DialogToggle::BlockMinimizeInFullScreen => {
            assert(items[2] == target);
        },
        DialogToggle::WindowAlwaysOnTop => {
            assert(items[4] == target);
        },
        _ => {},
    }
}

/// The toggles among the gameplay settings.
pub open spec fn in_gameplay_items(t: DialogToggle) -> bool {
    match t {
        DialogToggle::ForceAllowDynamicCamera => true,
        DialogToggle::LiveTheaterAllowSameChara => true,
        DialogToggle::SkillInfoDialog => true,
        DialogToggle::DisableSkillNameTranslation => true,
        DialogToggle::HideIngameUiHotkey => true,
        _ => false,
    }
}

proof fn lemma_gameplay_toggle(c: DialogSettings, t: DialogToggle)
    requires
        in_gameplay_items(t),
    ensures
        gameplay_items_spec(c).contains(DialogItem::Toggle { toggle: t, on: toggle_setting(c, t) }),
{
    let items = gameplay_items_spec(c);
    let target = DialogItem::Toggle { toggle: t, on: toggle_setting(c, t) };
    match t {
        DialogToggle::ForceAllowDynamicCamera => {
            assert(items[3] == target);
        },
        DialogToggle::LiveTheaterAllowSameChara => {
            assert(items[4] == target);
        },
        DialogToggle::SkillInfoDialog => {
            assert(items[5] == target);
        },
        DialogToggle::DisableSkillNameTranslation => {
            assert(items[6] == target);
        },
        DialogToggle::HideIngameUiHotkey => {
            assert(items[9] == target);
        },
        _ => {},
    }
}

/// The toggles among the advanced settings.
pub open spec fn in_advanced_items(t: DialogToggle) -> bool {
    match t {
        DialogToggle::DebugMode => true,
        DialogToggle::TextDebug => true,
        DialogToggle::TextLog => true,
        DialogToggle::TextPropertyDump => true,
        DialogToggle::TextLocalizeDump => true,
        DialogToggle::TextPositionDebug => true,
        DialogToggle::TextPathDebug => true,
        DialogToggle::EnableFileLogging => true,
        DialogToggle::EnableIpc => true,
        DialogToggle::IpcListenAll => true,
        DialogToggle::Ipv4Only => true,
        _ => false,
    }
}

proof fn lemma_advanced_toggle(c: DialogSettings, t: DialogToggle)
    requires
        in_advanced_items(t),
    ensures
        advanced_items_spec(c).contains(DialogItem::Toggle { toggle: t, on: toggle_setting(c, t) }),
{
    let items = advanced_items_spec(c);
    let target = DialogItem::Toggle { toggle: t, on: toggle_setting(c, t) };
    match t {
        DialogToggle::DebugMode => {
            assert(items[1] == target);
        },
        DialogToggle::TextDebug => {
            assert(items[2] == target);
        },
        DialogToggle::TextLog => {
            assert(items[3] == target);
        },
        DialogToggle::TextPropertyDump => {
            assert(items[4] == target);
        },
        DialogToggle::TextLocalizeDump => {
            assert(items[5] == target);
        },
        DialogToggle::TextPositionDebug => {
            assert(items[6] == target);
        },
        DialogToggle::TextPathDebug => {
            assert(items[7] == target);
        },
        DialogToggle::EnableFileLogging => {
            assert(items[8] == target);
        },
        DialogToggle::EnableIpc => {
            assert(items[9] == target);
        },
        DialogToggle::IpcListenAll => {
            assert(items[10] == target);
        },
        DialogToggle::Ipv4Only => {
            assert(items[11] == target);
        },
        _ => {},
    }
}

proof fn lemma_in_dialog(c: DialogSettings, x: DialogItem)
    requires
        general_items_spec(c).contains(x)
            || (c.windows && windows_general_items_spec(c).contains(x))
            || graphics_items_spec(c).contains(x)
            || (c.windows && windows_graphics_items_spec(c).contains(x))
            || gameplay_items_spec(c).contains(x)
            || advanced_items_spec(c).contains(x),
    ensures
        dialog_items_spec(c).contains(x),
{
    lemma_in_concat(general_items_spec(c), (if c.windows { windows_general_items_spec(c) } else { Seq::empty() }), x);
    lemma_in_concat(general_items_spec(c) + (if c.windows { windows_general_items_spec(c) } else { Seq::empty() }), graphics_items_spec(c), x);
    lemma_in_concat(general_items_spec(c) + (if c.windows { windows_general_items_spec(c) } else { Seq::empty() }) + graphics_items_spec(c), (if c.windows { windows_graphics_items_spec(c) } else { Seq::empty() }), x);
    lemma_in_concat(general_items_spec(c) + (if c.windows { windows_general_items_spec(c) } else { Seq::empty() }) + graphics_items_spec(c) + (if c.windows { windows_graphics_items_spec(c) } else { Seq::empty() }), gameplay_items_spec(c), x);
    lemma_in_concat(general_items_spec(c) + (if c.windows { windows_general_items_spec(c) } else { Seq::empty() }) + graphics_items_spec(c) + (if c.windows { windows_graphics_items_spec(c) } else { Seq::empty() }) + gameplay_items_spec(c), advanced_items_spec(c), x);
}

/// Every toggle shown is an item of the dialog, starting from the setting it shows.
pub proof fn lemma_toggles_shown_with_their_settings(c: DialogSettings, t: DialogToggle)
    requires
        toggle_shown(t, c.windows),
    ensures
        dialog_items_spec(c).contains(DialogItem::Toggle { toggle: t, on: toggle_setting(c, t) }),
{
    if in_general_items(t) {
        lemma_general_toggle(c, t);
    }
    if in_windows_general_items(t) {
        lemma_windows_general_toggle(c, t);
    }
    if in_windows_graphics_items(t) {
        lemma_windows_graphics_toggle(c, t);
    }
    if in_gameplay_items(t) {
        lemma_gameplay_toggle(c, t);
    }
    if in_advanced_items(t) {
        lemma_advanced_toggle(c, t);
    }
    lemma_in_dialog(c, DialogItem::Toggle { toggle: t, on: toggle_setting(c, t) });
}

/// Saving a dialog that was left as it was opened keeps the toggles: when every
/// toggle shown reads the setting it shows and every other toggle is not found,
/// the toggles are saved as they were.
pub proof fn lemma_untouched_dialog_keeps_toggles(c: DialogSettings, read: spec_fn(DialogToggle) -> Option<bool>)
    requires
        forall|t: DialogToggle| #[trigger] read(t) == if toggle_shown(t, c.windows) {
            Some(toggle_setting(c, t))
        } else {
            None
        },
    ensures
        toggles_saved(c.toggles, readings_of(read)) == c.toggles,
{
    assert(read(DialogToggle::DisableTranslations) == read(DialogToggle::DisableTranslations));
    assert(read(DialogToggle::AutoTranslateStories) == read(DialogToggle::AutoTranslateStories));
    assert(read(DialogToggle::AutoTranslateLocalize) == read(DialogToggle::AutoTranslateLocalize));
    assert(read(DialogToggle::TranslatorMode) == read(DialogToggle::TranslatorMode));
    assert(read(DialogToggle::LazyTranslationUpdates) == read(DialogToggle::LazyTranslationUpdates));
    assert(read(DialogToggle::DisableAutoUpdateCheck) == read(DialogToggle::DisableAutoUpdateCheck));
    assert(read(DialogToggle::DisableGui) == read(DialogToggle::DisableGui));
    assert(read(DialogToggle::ApplyAtlasWorkaround) == read(DialogToggle::ApplyAtlasWorkaround));
    assert(read(DialogToggle::DisableOutdatedAssetNotif) == read(DialogToggle::DisableOutdatedAssetNotif));
    assert(read(DialogToggle::SkipFirstTimeSetup) == read(DialogToggle::SkipFirstTimeSetup));
    assert(read(DialogToggle::DiscordRpc) == read(DialogToggle::DiscordRpc));
    assert(read(DialogToggle::AutoFullScreen) == read(DialogToggle::AutoFullScreen));
    assert(read(DialogToggle::BlockMinimizeInFullScreen) == read(DialogToggle::BlockMinimizeInFullScreen));
    assert(read(DialogToggle::WindowAlwaysOnTop) == read(DialogToggle::WindowAlwaysOnTop));
    assert(read(DialogToggle::ForceAllowDynamicCamera) == read(DialogToggle::ForceAllowDynamicCamera));
    assert(read(DialogToggle::LiveTheaterAllowSameChara) == read(DialogToggle::LiveTheaterAllowSameChara));
    assert(read(DialogToggle::SkillInfoDialog) == read(DialogToggle::SkillInfoDialog));
    assert(read(DialogToggle::DisableSkillNameTranslation) == read(DialogToggle::DisableSkillNameTranslation));
    assert(read(DialogToggle::HideIngameUiHotkey) == read(DialogToggle::HideIngameUiHotkey));
    assert(read(DialogToggle::DebugMode) == read(DialogToggle::DebugMode));
    assert(read(DialogToggle::EnableFileLogging) == read(DialogToggle::EnableFileLogging));
    assert(read(DialogToggle::EnableIpc) == read(DialogToggle::EnableIpc));
    assert(read(DialogToggle::Ipv4Only) == read(DialogToggle::Ipv4Only));
    assert(read(DialogToggle::IpcListenAll) == read(DialogToggle::IpcListenAll));
}

/// Saving a dialog that was left as it was opened keeps the text debugging
/// switches.
pub proof fn lemma_untouched_dialog_keeps_text_debug(c: DialogSettings, read: spec_fn(DialogToggle) -> Option<bool>)
    requires
        forall|t: DialogToggle| #[trigger] read(t) == if toggle_shown(t, c.windows) {
            Some(toggle_setting(c, t))
        } else {
            None
        },
    ensures
        text_debug_after(c.text_debug, text_debug_readings_of(read)) == c.text_debug,
{
    assert(read(DialogToggle::TextDebug) == read(DialogToggle::TextDebug));
    assert(read(DialogToggle::TextLog) == read(DialogToggle::TextLog));
    assert(read(DialogToggle::TextPropertyDump) == read(DialogToggle::TextPropertyDump));
    assert(read(DialogToggle::TextLocalizeDump) == read(DialogToggle::TextLocalizeDump));
    assert(read(DialogToggle::TextPositionDebug) == read(DialogToggle::TextPositionDebug));
    assert(read(DialogToggle::TextPathDebug) == read(DialogToggle::TextPathDebug));
}

} // verus!
