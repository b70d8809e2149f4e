//! The settings dialog added to the game's options: how each choice maps to the
//! position selected in its option list and back, and how the values read from the
//! dialog become configuration.
use vstd::prelude::*;
use crate::text::{chars_of, string_from_chars, trim, trim_chars};

verus! {

/// The interface language.
#[derive(Clone, Copy, Debug, PartialEq, Eq, Structural)]
pub enum Language {
    English,
    TChinese,
    SChinese,
    Vietnamese,
    Indonesian,
    Spanish,
    BPortuguese,
    Filipino,
}

impl Language {
    /// The language at position `i` of the language list; English for any other
    /// position.
    #[verifier::allow_in_spec]
    pub fn from_selection(i: i32) -> Self
        returns
            (if i == 1 {
                Language::TChinese
            } else if i == 2 {
                Language::SChinese
            } else if i == 3 {
                Language::Vietnamese
            } else if i == 4 {
                Language::Indonesian
            } else if i == 5 {
                Language::Spanish
            } else if i == 6 {
                Language::BPortuguese
            } else if i == 7 {
                Language::Filipino
            } else {
                Language::English
            }),
    {
        if i == 1 {
            Language::TChinese
        } else if i == 2 {
            Language::SChinese
        } else if i == 3 {
            Language::Vietnamese
        } else if i == 4 {
            Language::Indonesian
        } else if i == 5 {
            Language::Spanish
        } else if i == 6 {
            Language::BPortuguese
        } else if i == 7 {
            Language::Filipino
        } else {
            Language::English
        }
    }

    /// The position of the language in the language list.
    #[verifier::allow_in_spec]
    pub fn selection(&self) -> i32
        returns
            (match self {
                Language::English => 0i32,
                Language::TChinese => 1i32,
                Language::SChinese => 2i32,
                Language::Vietnamese => 3i32,
                Language::Indonesian => 4i32,
                Language::Spanish => 5i32,
                Language::BPortuguese => 6i32,
                Language::Filipino => 7i32,
            }),
    {
        match self {
            Language::English => 0,
            Language::TChinese => 1,
            Language::SChinese => 2,
            Language::Vietnamese => 3,
            Language::Indonesian => 4,
            Language::Spanish => 5,
            Language::BPortuguese => 6,
            Language::Filipino => 7,
        }
    }
}

/// Saving the dialog keeps the language it was opened with, and each position of
/// the list stands for a language of its own.
pub proof fn lemma_language_selection_roundtrip(l: Language, i: i32)
    ensures
        Language::from_selection(l.selection()) == l,
        0 <= i < 8 ==> Language::from_selection(i).selection() == i,
{
}

/// The multisample anti-aliasing level.
#[derive(Clone, Copy, Debug, PartialEq, Eq, Structural)]
pub enum MsaaQuality {
    Disabled,
    _2x,
    _4x,
    _8x,
}

impl MsaaQuality {
    /// The choice at position `i` of the MSAA list; disabled for any other position.
    #[verifier::allow_in_spec]
    pub fn from_selection(i: i32) -> Self
        returns
            (if i == 1 {
                MsaaQuality::_2x
            } else if i == 2 {
                MsaaQuality::_4x
            } else if i == 3 {
                MsaaQuality::_8x
            } else {
                MsaaQuality::Disabled
            }),
    {
        if i == 1 {
            MsaaQuality::_2x
        } else if i == 2 {
            MsaaQuality::_4x
        } else if i == 3 {
            MsaaQuality::_8x
        } else {
            MsaaQuality::Disabled
        }
    }

    /// The position of the choice in the MSAA list.
    #[verifier::allow_in_spec]
    pub fn selection(&self) -> i32
        returns
            (match self {
                MsaaQuality::Disabled => 0i32,
                MsaaQuality::_2x => 1i32,
                MsaaQuality::_4x => 2i32,
                MsaaQuality::_8x => 3i32,
            }),
    {
        match self {
            MsaaQuality::Disabled => 0,
            MsaaQuality::_2x => 1,
            MsaaQuality::_4x => 2,
            MsaaQuality::_8x => 3,
        }
    }
}

/// Saving the dialog keeps the choice it was opened with, and each position of
/// the MSAA list stands for a choice of its own.
pub proof fn lemma_msaa_quality_selection_roundtrip(v: MsaaQuality, i: i32)
    ensures
        MsaaQuality::from_selection(v.selection()) == v,
        0 <= i < 4 ==> MsaaQuality::from_selection(i).selection() == i,
{
}

/// The anisotropic filtering level of textures.
#[derive(Clone, Copy, Debug, PartialEq, Eq, Structural)]
pub enum AnisoLevel {
    Default,
    _2x,
    _4x,
    _8x,
    _16x,
}

impl AnisoLevel {
    /// The choice at position `i` of the anisotropic filtering list; the default level for any other position.
    #[verifier::allow_in_spec]
    pub fn from_selection(i: i32) -> Self
        returns
            (if i == 1 {
                AnisoLevel::_2x
            } else if i == 2 {
                AnisoLevel::_4x
            } else if i == 3 {
                AnisoLevel::_8x
            } else if i == 4 {
                AnisoLevel::_16x
            } else {
                AnisoLevel::Default
            }),
    {
        if i == 1 {
            AnisoLevel::_2x
        } else if i == 2 {
            AnisoLevel::_4x
        } else if i == 3 {
            AnisoLevel::_8x
        } else if i == 4 {
            AnisoLevel::_16x
        } else {
            AnisoLevel::Default
        }
    }

    /// The position of the choice in the anisotropic filtering list.
    #[verifier::allow_in_spec]
    pub fn selection(&self) -> i32
        returns
            (match self {
                AnisoLevel::Default => 0i32,
                AnisoLevel::_2x => 1i32,
                AnisoLevel::_4x => 2i32,
                AnisoLevel::_8x => 3i32,
                AnisoLevel::_16x => 4i32,
            }),
    {
        match self {
            AnisoLevel::Default => 0,
            AnisoLevel::_2x => 1,
            AnisoLevel::_4x => 2,
            AnisoLevel::_8x => 3,
            AnisoLevel::_16x => 4,
        }
    }
}

/// Saving the dialog keeps the choice it was opened with, and each position of
/// the anisotropic filtering list stands for a choice of its own.
pub proof fn lemma_aniso_level_selection_roundtrip(v: AnisoLevel, i: i32)
    ensures
        AnisoLevel::from_selection(v.selection()) == v,
        0 <= i < 5 ==> AnisoLevel::from_selection(i).selection() == i,
{
}

/// The resolution of shadow maps.
#[derive(Clone, Copy, Debug, PartialEq, Eq, Structural)]
pub enum ShadowResolution {
    Default,
    _256,
    _512,
    _1024,
    _2048,
    _4096,
}

impl ShadowResolution {
    /// The choice at position `i` of the shadow resolution list; the default resolution for any other position.
    #[verifier::allow_in_spec]
    pub fn from_selection(i: i32) -> Self
        returns
            (if i == 1 {
                ShadowResolution::_256
            } else if i == 2 {
                ShadowResolution::_512
            } else if i == 3 {
                ShadowResolution::_1024
            } else if i == 4 {
                ShadowResolution::_2048
            } else if i == 5 {
                ShadowResolution::_4096
            } else {
                ShadowResolution::Default
            }),
    {
        if i == 1 {
            ShadowResolution::_256
        } else if i == 2 {
            ShadowResolution::_512
        } else if i == 3 {
            ShadowResolution::_1024
        } else if i == 4 {
            ShadowResolution::_2048
        } else if i == 5 {
            ShadowResolution::_4096
        } else {
            ShadowResolution::Default
        }
    }

    /// The position of the choice in the shadow resolution list.
    #[verifier::allow_in_spec]
    pub fn selection(&self) -> i32
        returns
            (match self {
                ShadowResolution::Default => 0i32,
                ShadowResolution::_256 => 1i32,
                ShadowResolution::_512 => 2i32,
                ShadowResolution::_1024 => 3i32,
                ShadowResolution::_2048 => 4i32,
                ShadowResolution::_4096 => 5i32,
            }),
    {
        match self {
            ShadowResolution::Default => 0,
            ShadowResolution::_256 => 1,
            ShadowResolution::_512 => 2,
            ShadowResolution::_1024 => 3,
            ShadowResolution::_2048 => 4,
            ShadowResolution::_4096 => 5,
        }
    }
}

/// Saving the dialog keeps the choice it was opened with, and each position of
/// the shadow resolution list stands for a choice of its own.
pub proof fn lemma_shadow_resolution_selection_roundtrip(v: ShadowResolution, i: i32)
    ensures
        ShadowResolution::from_selection(v.selection()) == v,
        0 <= i < 6 ==> ShadowResolution::from_selection(i).selection() == i,
{
}

/// The graphics quality preset.
#[derive(Clone, Copy, Debug, PartialEq, Eq, Structural)]
pub enum GraphicsQuality {
    Default,
    Toon1280,
    Toon1280x2,
    Toon1280x4,
    ToonFull,
    Max,
}

impl GraphicsQuality {
    /// The choice at position `i` of the graphics quality list; the default preset for any other position.
    #[verifier::allow_in_spec]
    pub fn from_selection(i: i32) -> Self
        returns
            (if i == 1 {
                GraphicsQuality::Toon1280
            } else if i == 2 {
                GraphicsQuality::Toon1280x2
            } else if i == 3 {
                GraphicsQuality::Toon1280x4
            } else if i == 4 {
                GraphicsQuality::ToonFull
            } else if i == 5 {
                GraphicsQuality::Max
            } else {
                GraphicsQuality::Default
            }),
    {
        if i == 1 {
            GraphicsQuality::Toon1280
        } else if i == 2 {
            GraphicsQuality::Toon1280x2
        } else if i == 3 {
            GraphicsQuality::Toon1280x4
        } else if i == 4 {
            GraphicsQuality::ToonFull
        } else if i == 5 {
            GraphicsQuality::Max
        } else {
            GraphicsQuality::Default
        }
    }

    /// The position of the choice in the graphics quality list.
    #[verifier::allow_in_spec]
    pub fn selection(&self) -> i32
        returns
            (match self {
                GraphicsQuality::Default => 0i32,
                GraphicsQuality::Toon1280 => 1i32,
                GraphicsQuality::Toon1280x2 => 2i32,
                GraphicsQuality::Toon1280x4 => 3i32,
                GraphicsQuality::ToonFull => 4i32,
                GraphicsQuality::Max => 5i32,
            }),
    {
        match self {
            GraphicsQuality::Default => 0,
            GraphicsQuality::Toon1280 => 1,
            GraphicsQuality::Toon1280x2 => 2,
            GraphicsQuality::Toon1280x4 => 3,
            GraphicsQuality::ToonFull => 4,
            GraphicsQuality::Max => 5,
        }
    }
}

/// Saving the dialog keeps the choice it was opened with, and each position of
/// the graphics quality list stands for a choice of its own.
pub proof fn lemma_graphics_quality_selection_roundtrip(v: GraphicsQuality, i: i32)
    ensures
        GraphicsQuality::from_selection(v.selection()) == v,
        0 <= i < 6 ==> GraphicsQuality::from_selection(i).selection() == i,
{
}

/// The season of the home screen background.
#[derive(Clone, Copy, Debug, PartialEq, Eq, Structural)]
pub enum BgSeason {
    NoSeason,
    Spring,
    Summer,
    Fall,
    Winter,
    CherryBlossom,
}

impl BgSeason {
    /// The choice at position `i` of the season list; no season for any other position.
    #[verifier::allow_in_spec]
    pub fn from_selection(i: i32) -> Self
        returns
            (if i == 1 {
                BgSeason::Spring
            } else if i == 2 {
                BgSeason::Summer
            } else if i == 3 {
                BgSeason::Fall
            } else if i == 4 {
                BgSeason::Winter
            } else if i == 5 {
                BgSeason::CherryBlossom
            } else {
                BgSeason::NoSeason
            }),
    {
        if i == 1 {
            BgSeason::Spring
        } else if i == 2 {
            BgSeason::Summer
        } else if i == 3 {
            BgSeason::Fall
        } else if i == 4 {
            BgSeason::Winter
        } else if i == 5 {
            BgSeason::CherryBlossom
        } else {
            BgSeason::NoSeason
        }
    }

    /// The position of the choice in the season list.
    #[verifier::allow_in_spec]
    pub fn selection(&self) -> i32
        returns
            (match self {
                BgSeason::NoSeason => 0i32,
                BgSeason::Spring => 1i32,
                BgSeason::Summer => 2i32,
                BgSeason::Fall => 3i32,
                BgSeason::Winter => 4i32,
                BgSeason::CherryBlossom => 5i32,
            }),
    {
        match self {
            BgSeason::NoSeason => 0,
            BgSeason::Spring => 1,
            BgSeason::Summer => 2,
            BgSeason::Fall => 3,
            BgSeason::Winter => 4,
            BgSeason::CherryBlossom => 5,
        }
    }
}

/// Saving the dialog keeps the choice it was opened with, and each position of
/// the season list stands for a choice of its own.
pub proof fn lemma_bg_season_selection_roundtrip(v: BgSeason, i: i32)
    ensures
        BgSeason::from_selection(v.selection()) == v,
        0 <= i < 6 ==> BgSeason::from_selection(i).selection() == i,
{
}

/// How the game's resolution is scaled in a window.
#[derive(Clone, Copy, Debug, PartialEq, Eq, Structural)]
pub enum ResolutionScaling {
    Default,
    ScaleToScreenSize,
    ScaleToWindowSize,
}

impl ResolutionScaling {
    /// The choice at position `i` of the resolution scaling choices; the default scaling for any other position.
    #[verifier::allow_in_spec]
    pub fn from_selection(i: i32) -> Self
        returns
            (if i == 1 {
                ResolutionScaling::ScaleToScreenSize
            } else if i == 2 {
                ResolutionScaling::ScaleToWindowSize
            } else {
                ResolutionScaling::Default
            }),
    {
        if i == 1 {
            ResolutionScaling::ScaleToScreenSize
        } else if i == 2 {
            ResolutionScaling::ScaleToWindowSize
        } else {
            ResolutionScaling::Default
        }
    }

    /// The position of the choice in the resolution scaling choices.
    #[verifier::allow_in_spec]
    pub fn selection(&self) -> i32
        returns
            (match self {
                ResolutionScaling::Default => 0i32,
                ResolutionScaling::ScaleToScreenSize => 1i32,
                ResolutionScaling::ScaleToWindowSize => 2i32,
            }),
    {
        match self {
            ResolutionScaling::Default => 0,
            ResolutionScaling::ScaleToScreenSize => 1,
            ResolutionScaling::ScaleToWindowSize => 2,
        }
    }
}

/// Saving the dialog keeps the choice it was opened with, and each position of
/// the resolution scaling choices stands for a choice of its own.
pub proof fn lemma_resolution_scaling_selection_roundtrip(v: ResolutionScaling, i: i32)
    ensures
        ResolutionScaling::from_selection(v.selection()) == v,
        0 <= i < 3 ==> ResolutionScaling::from_selection(i).selection() == i,
{
}

/// How the cloth and hair physics are updated (no choice: the game's own mode).
#[derive(Clone, Copy, Debug, PartialEq, Eq, Structural)]
pub enum SpringUpdateMode {
    ModeNormal,
    Mode60FPS,
    SkipFrame,
    SkipFramePostAlways,
}

/// The physics update mode at position `i` of the physics list: position 0 and
/// any position outside the list leave the game's own mode.
#[verifier::allow_in_spec]
pub fn physics_update_mode_from_selection(i: i32) -> Option<SpringUpdateMode>
    returns
        (if i == 1 {
            Some(SpringUpdateMode::ModeNormal)
        } else if i == 2 {
            Some(SpringUpdateMode::Mode60FPS)
        } else if i == 3 {
            Some(SpringUpdateMode::SkipFrame)
        } else if i == 4 {
            Some(SpringUpdateMode::SkipFramePostAlways)
        } else {
            None
        }),
{
    if i == 1 {
        Some(SpringUpdateMode::ModeNormal)
    } else if i == 2 {
        Some(SpringUpdateMode::Mode60FPS)
    } else if i == 3 {
        Some(SpringUpdateMode::SkipFrame)
    } else if i == 4 {
        Some(SpringUpdateMode::SkipFramePostAlways)
    } else {
        None
    }
}

/// The position of a physics update mode in the physics list.
#[verifier::allow_in_spec]
pub fn physics_update_mode_selection(m: Option<SpringUpdateMode>) -> i32
    returns
        (match m {
            None => 0i32,
            Some(SpringUpdateMode::ModeNormal) => 1i32,
            Some(SpringUpdateMode::Mode60FPS) => 2i32,
            Some(SpringUpdateMode::SkipFrame) => 3i32,
            Some(SpringUpdateMode::SkipFramePostAlways) => 4i32,
        }),
{
    match m {
        None => 0,
        Some(SpringUpdateMode::ModeNormal) => 1,
        Some(SpringUpdateMode::Mode60FPS) => 2,
        Some(SpringUpdateMode::SkipFrame) => 3,
        Some(SpringUpdateMode::SkipFramePostAlways) => 4,
    }
}

/// Saving the dialog keeps the physics update mode it was opened with, and each
/// position of the list stands for a mode of its own.
pub proof fn lemma_physics_update_mode_selection_roundtrip(m: Option<SpringUpdateMode>, i: i32)
    ensures
        physics_update_mode_from_selection(physics_update_mode_selection(m)) == m,
        0 <= i < 5 ==> physics_update_mode_selection(physics_update_mode_from_selection(i)) == i,
{
}

/// Full screen as an exclusive mode or as a borderless window.
#[derive(Clone, Copy, Debug, PartialEq, Eq, Structural)]
pub enum FullScreenMode {
    ExclusiveFullScreen,
    FullScreenWindow,
}

impl FullScreenMode {
    /// The mode at position `i` of the two-way toggle: exclusive for 0, borderless
    /// for anything else.
    #[verifier::allow_in_spec]
    pub fn from_selection(i: i32) -> Self
        returns
            (if i == 0 {
                FullScreenMode::ExclusiveFullScreen
            } else {
                FullScreenMode::FullScreenWindow
            }),
    {
        if i == 0 {
            FullScreenMode::ExclusiveFullScreen
        } else {
            FullScreenMode::FullScreenWindow
        }
    }

    /// The position of the mode in the two-way toggle.
    #[verifier::allow_in_spec]
    pub fn selection(&self) -> i32
        returns
            (match self {
                FullScreenMode::ExclusiveFullScreen => 0i32,
                FullScreenMode::FullScreenWindow => 1i32,
            }),
    {
        match self {
            FullScreenMode::ExclusiveFullScreen => 0,
            FullScreenMode::FullScreenWindow => 1,
        }
    }
}

/// Saving the dialog keeps the full screen mode it was opened with, and each side
/// of the toggle stands for a mode of its own.
pub proof fn lemma_full_screen_mode_selection_roundtrip(m: FullScreenMode, i: i32)
    ensures
        FullScreenMode::from_selection(m.selection()) == m,
        0 <= i < 2 ==> FullScreenMode::from_selection(i).selection() == i,
{
}

/// The vsync count at position `i` of the vsync list (`-1` is the game's default,
/// `0` off, `1` to `4` every that many frames); the default for any other position.
#[verifier::allow_in_spec]
pub fn vsync_count_from_selection(i: i32) -> i32
    returns
        (if 1 <= i && i <= 5 {
            i - 1
        } else {
            -1
        }) as i32,
{
    if 1 <= i && i <= 5 {
        i - 1
    } else {
        -1
    }
}

/// The position of a vsync count in the vsync list; the default's position for a
/// count the list does not offer.
#[verifier::allow_in_spec]
pub fn vsync_selection(count: i32) -> i32
    returns
        (if -1 <= count && count <= 4 {
            count + 1
        } else {
            0
        }) as i32,
{
    if -1 <= count && count <= 4 {
        count + 1
    } else {
        0
    }
}

/// Saving the dialog keeps a vsync count that the list offers, and each position
/// of the list stands for a count of its own.
pub proof fn lemma_vsync_selection_roundtrip(count: i32, i: i32)
    ensures
        -1 <= count <= 4 ==> vsync_count_from_selection(vsync_selection(count)) == count,
        0 <= i < 6 ==> vsync_selection(vsync_count_from_selection(i)) == i,
{
}

/// The lowest frame rate of the frame rate slider, which stands for "no target".
pub const MIN_TARGET_FPS: i32 = 30;

/// The target frame rate set from the slider: none at the slider's lowest value or
/// below, that value otherwise.
#[verifier::allow_in_spec]
pub fn target_fps_from_slider(fps: i32) -> Option<i32>
    returns
        (if fps <= MIN_TARGET_FPS {
            None
        } else {
            Some(fps)
        }),
{
    if fps <= MIN_TARGET_FPS {
        None
    } else {
        Some(fps)
    }
}

/// The slider value that shows a target frame rate: the rate, or the slider's
/// lowest value when there is none.
#[verifier::allow_in_spec]
pub fn target_fps_slider_value(target: Option<i32>) -> i32
    returns
        (match target {
            Some(f) => f,
            None => MIN_TARGET_FPS,
        }),
{
    match target {
        Some(f) => f,
        None => MIN_TARGET_FPS,
    }
}

/// Saving the dialog keeps the target frame rate it was opened with, when that rate
/// is above the slider's lowest value (or absent).
pub proof fn lemma_target_fps_roundtrip(target: Option<i32>)
    ensures
        (target matches Some(f) ==> f > MIN_TARGET_FPS) ==> target_fps_from_slider(
            target_fps_slider_value(target),
        ) == target,
{
}

/// The value of a toggle group read from the dialog: `None` when the group was not
/// found (`found` is `None`) or has no toggle on (it reports `-1`).
pub fn get_toggle_group_value_by_name(found: Option<i32>) -> (r: Option<i32>)
    ensures
        r == match found {
            Some(v) => if v == -1 { None } else { Some(v) },
            None => None,
        },
{
    match found {
        Some(v) => if v == -1 { None } else { Some(v) },
        None => None,
    }
}

/// The text debugging switches of the configuration.
#[derive(Clone, Copy, Debug, Default, PartialEq, Eq, Structural)]
pub struct TextDebugFlags {
    pub text_debug: bool,
    pub text_log: bool,
    pub text_property_dump: bool,
    pub text_localize_dump: bool,
    pub text_position_debug: bool,
    pub text_path_debug: bool,
}

/// The text debugging toggles as read from the dialog: `None` for a toggle that
/// was not found.
#[derive(Clone, Copy, Debug, Default, PartialEq, Eq, Structural)]
pub struct TextDebugToggles {
    pub text_debug: Option<bool>,
    pub text_log: Option<bool>,
    pub text_property_dump: Option<bool>,
    pub text_localize_dump: Option<bool>,
    pub text_position_debug: Option<bool>,
    pub text_path_debug: Option<bool>,
}

/// A detail switch after saving: the toggle's value when it was found; else off when
/// text debugging was switched off; else as it was.
pub open spec fn detail_after(current: bool, toggle: Option<bool>, debug_toggle: Option<bool>) -> bool {
    match toggle {
        Some(v) => v,
        None => if debug_toggle == Some(false) { false } else { current },
    }
}

/// The text debugging switches after the dialog is saved.
pub open spec fn text_debug_after(f: TextDebugFlags, t: TextDebugToggles) -> TextDebugFlags {
    TextDebugFlags {
        text_debug: match t.text_debug { Some(v) => v, None => f.text_debug },
        text_log: detail_after(f.text_log, t.text_log, t.text_debug),
        text_property_dump: detail_after(f.text_property_dump, t.text_property_dump, t.text_debug),
        text_localize_dump: detail_after(f.text_localize_dump, t.text_localize_dump, t.text_debug),
        text_position_debug: detail_after(f.text_position_debug, t.text_position_debug, t.text_debug),
        text_path_debug: detail_after(f.text_path_debug, t.text_path_debug, t.text_debug),
    }
}

/// Saves the text debugging toggles: switching text debugging off switches every
/// detail off, and then each detail toggle found sets its switch.
pub fn apply_text_debug_toggles(flags: &mut TextDebugFlags, t: &TextDebugToggles)
    ensures
        *final(flags) == text_debug_after(*old(flags), *t),
{
    if let Some(v) = t.text_debug {
        flags.text_debug = v;
        if !v {
            flags.text_log = false;
            flags.text_property_dump = false;
            flags.text_localize_dump = false;
            flags.text_position_debug = false;
            flags.text_path_debug = false;
        }
    }
    if let Some(v) = t.text_log {
        flags.text_log = v;
    }
    if let Some(v) = t.text_property_dump {
        flags.text_property_dump = v;
    }
    if let Some(v) = t.text_localize_dump {
        flags.text_localize_dump = v;
    }
    if let Some(v) = t.text_position_debug {
        flags.text_position_debug = v;
    }
    if let Some(v) = t.text_path_debug {
        flags.text_path_debug = v;
    }
}

/// With text debugging switched off and no detail toggle shown, every detail
/// switch ends off.
pub proof fn lemma_debug_off_clears_details(f: TextDebugFlags)
    ensures
        ({
            let after = text_debug_after(
                f,
                TextDebugToggles {
                    text_debug: Some(false),
                    text_log: None,
                    text_property_dump: None,
                    text_localize_dump: None,
                    text_position_debug: None,
                    text_path_debug: None,
                },
            );
            !after.text_debug && !after.text_log && !after.text_property_dump
                && !after.text_localize_dump && !after.text_position_debug && !after.text_path_debug
        }),
{
}

/// Icon glyphs: the characters from U+F000 on.
pub open spec fn is_icon_glyph(c: char) -> bool {
    c >= '\u{f000}'
}

/// The characters of `s` below U+F000 (icon glyphs of the private use area and
/// above are left out), in order.
pub open spec fn below_icon_range(s: Seq<char>) -> Seq<char>
    decreases s.len(),
{
    if s.len() == 0 {
        Seq::empty()
    } else if !is_icon_glyph(s.last()) {
        below_icon_range(s.drop_last()).push(s.last())
    } else {
        below_icon_range(s.drop_last())
    }
}

/// A translated label as the dialog shows it: without icon glyphs (characters
/// from U+F000 on) and without white space at either end.
pub fn clean_translation(raw: &str) -> (r: String)
    ensures
        r@ == trim(below_icon_range(raw@)),
{
    let c = chars_of(raw);
    let mut kept: Vec<char> = Vec::new();
    let mut i: usize = 0;
    while i < c.len()
        invariant
            i <= c.len(),
            c@ == raw@,
            kept@ == below_icon_range(c@.take(i as int)),
        decreases c.len() - i,
    {
        assert(c@.take(i + 1).drop_last() =~= c@.take(i as int));
        if !(c[i] >= '\u{f000}') {
            kept.push(c[i]);
        }
        i = i + 1;
    }
    assert(c@.take(c.len() as int) =~= c@);
    let t = trim_chars(&kept);
    string_from_chars(&t)
}

/// Cleaned labels hold no icon glyph.
pub proof fn lemma_clean_has_no_icons(s: Seq<char>)
    ensures
        forall|i: int| 0 <= i < below_icon_range(s).len() ==> !is_icon_glyph(#[trigger] below_icon_range(s)[i]),
    decreases s.len(),
{
    if s.len() > 0 {
        lemma_clean_has_no_icons(s.drop_last());
        let rest = below_icon_range(s.drop_last());
        if !is_icon_glyph(s.last()) {
            assert(below_icon_range(s) == rest.push(s.last()));
        } else {
            assert(below_icon_range(s) == rest);
        }
    }
}

/// The characters of `a` followed by those of `b`.
fn concat(a: &str, b: &str) -> (r: String)
    ensures
        r@ == a@ + b@,
{
    let mut r = a.to_owned();
    r.append(b);
    r
}

/// What happens to the dialog that lets the user pick one option of a list.
pub enum SelectDialogEvent<T> {
    /// The dialog opens with the callback to call with the chosen option.
    Open(T),
    /// The dialog is saved; the index of the option that is on, if one is.
    Save(Option<i32>),
    /// The dialog is cancelled.
    Cancel,
}

/// The callback kept for the open dialog after `event`, and the call to make (the
/// callback and the chosen index): opening keeps the new callback in place of any
/// other; saving drops the callback, calling it first when an option is on;
/// cancelling drops it without a call.
pub open spec fn select_dialog_next<T>(pending: Option<T>, event: SelectDialogEvent<T>) -> (Option<T>, Option<(T, i32)>) {
    match event {
        SelectDialogEvent::Open(cb) => (Some(cb), None),
        SelectDialogEvent::Save(selected) => (None, match pending {
            Some(cb) => match selected {
                Some(v) => Some((cb, v)),
                None => None,
            },
            None => None,
        }),
        SelectDialogEvent::Cancel => (None, None),
    }
}

/// One step of the option selection dialog: updates the kept callback and returns
/// the call to make, if any.
pub fn select_dialog_step<T>(pending: &mut Option<T>, event: SelectDialogEvent<T>) -> (r: Option<(T, i32)>)
    ensures
        (*final(pending), r) == select_dialog_next(*old(pending), event),
{
    match event {
        SelectDialogEvent::Open(cb) => {
            *pending = Some(cb);
            None
        },
        SelectDialogEvent::Save(selected) => {
            let kept = pending.take();
            match kept {
                Some(cb) => match selected {
                    Some(v) => Some((cb, v)),
                    None => None,
                },
                None => None,
            }
        },
        SelectDialogEvent::Cancel => {
            *pending = None;
            None
        },
    }
}

/// A callback is called at most once: after a save or a cancel nothing is kept, so
/// a later save calls nothing until the dialog is opened again.
pub proof fn lemma_callback_called_at_most_once<T>(pending: Option<T>, first: SelectDialogEvent<T>, later: Option<i32>)
    requires
        !(first is Open),
    ensures
        select_dialog_next(pending, first).0 is None,
        select_dialog_next(select_dialog_next(pending, first).0, SelectDialogEvent::Save(later)).1 is None,
{
}

/// The rows of the option grid, which has two columns: half the options, rounded up.
pub fn select_dialog_rows(option_count: usize) -> (r: usize)
    ensures
        r == (option_count + 1) / 2,
{
    option_count / 2 + option_count % 2
}

/// The text of an option button: its title, a colon, and its current value.
pub fn option_value_display(title: &str, value_text: &str) -> (r: String)
    ensures
        r@ == title@ + ": "@ + value_text@,
{
    let head = concat(title, ": ");
    concat(head.as_str(), value_text)
}

/// The name of the game object that holds an option button's label.
pub fn simple_item_name(name: &str) -> (r: String)
    ensures
        r@ == name@ + "_simple"@,
{
    concat(name, "_simple")
}

/// The title of a category of the dialog, from its translated name.
pub fn category_title(translated: &str) -> (r: String)
    ensures
        r@ == translated@ + " Settings"@,
{
    concat(translated, " Settings")
}

/// The on/off settings of the configuration that the dialog shows as toggles,
/// each under the game object name `hachimi_` followed by the field's name.
#[derive(Clone, Copy, Debug, Default, PartialEq, Eq, Structural)]
pub struct SettingsToggles {
    pub disable_translations: bool,
    pub auto_translate_stories: bool,
    pub auto_translate_localize: bool,
    pub translator_mode: bool,
    pub lazy_translation_updates: bool,
    pub disable_auto_update_check: bool,
    pub disable_gui: bool,
    pub apply_atlas_workaround: bool,
    pub disable_outdated_asset_notif: bool,
    pub skip_first_time_setup: bool,
    pub discord_rpc: bool,
    pub auto_full_screen: bool,
    pub block_minimize_in_full_screen: bool,
    pub window_always_on_top: bool,
    pub force_allow_dynamic_camera: bool,
    pub live_theater_allow_same_chara: bool,
    pub skill_info_dialog: bool,
    pub disable_skill_name_translation: bool,
    pub hide_ingame_ui_hotkey: bool,
    pub debug_mode: bool,
    pub enable_file_logging: bool,
    pub enable_ipc: bool,
    pub ipv4_only: bool,
    pub ipc_listen_all: bool,
}

/// The toggles as read from the dialog when it is saved: `None` for a toggle that
/// was not found (such as the Windows-only ones elsewhere).
#[derive(Clone, Copy, Debug, Default, PartialEq, Eq, Structural)]
pub struct SettingsToggleReadings {
    pub disable_translations: Option<bool>,
    pub auto_translate_stories: Option<bool>,
    pub auto_translate_localize: Option<bool>,
    pub translator_mode: Option<bool>,
    pub lazy_translation_updates: Option<bool>,
    pub disable_auto_update_check: Option<bool>,
    pub disable_gui: Option<bool>,
    pub apply_atlas_workaround: Option<bool>,
    pub disable_outdated_asset_notif: Option<bool>,
    pub skip_first_time_setup: Option<bool>,
    pub discord_rpc: Option<bool>,
    pub auto_full_screen: Option<bool>,
    pub block_minimize_in_full_screen: Option<bool>,
    pub window_always_on_top: Option<bool>,
    pub force_allow_dynamic_camera: Option<bool>,
    pub live_theater_allow_same_chara: Option<bool>,
    pub skill_info_dialog: Option<bool>,
    pub disable_skill_name_translation: Option<bool>,
    pub hide_ingame_ui_hotkey: Option<bool>,
    pub debug_mode: Option<bool>,
    pub enable_file_logging: Option<bool>,
    pub enable_ipc: Option<bool>,
    pub ipv4_only: Option<bool>,
    pub ipc_listen_all: Option<bool>,
}

/// A setting after saving: the toggle's state where the toggle was found, else the
/// setting as it was.
pub open spec fn toggle_saved(reading: Option<bool>, current: bool) -> bool {
    match reading {
        Some(v) => v,
        None => current,
    }
}

/// The settings after saving: each toggle found sets its setting, the others are
/// kept.
pub open spec fn toggles_saved(s: SettingsToggles, t: SettingsToggleReadings) -> SettingsToggles {
    SettingsToggles {
        disable_translations: toggle_saved(t.disable_translations, s.disable_translations),
        auto_translate_stories: toggle_saved(t.auto_translate_stories, s.auto_translate_stories),
        auto_translate_localize: toggle_saved(t.auto_translate_localize, s.auto_translate_localize),
        translator_mode: toggle_saved(t.translator_mode, s.translator_mode),
        lazy_translation_updates: toggle_saved(t.lazy_translation_updates, s.lazy_translation_updates),
        disable_auto_update_check: toggle_saved(t.disable_auto_update_check, s.disable_auto_update_check),
        disable_gui: toggle_saved(t.disable_gui, s.disable_gui),
        apply_atlas_workaround: toggle_saved(t.apply_atlas_workaround, s.apply_atlas_workaround),
        disable_outdated_asset_notif: toggle_saved(t.disable_outdated_asset_notif, s.disable_outdated_asset_notif),
        skip_first_time_setup: toggle_saved(t.skip_first_time_setup, s.skip_first_time_setup),
        discord_rpc: toggle_saved(t.discord_rpc, s.discord_rpc),
        auto_full_screen: toggle_saved(t.auto_full_screen, s.auto_full_screen),
        block_minimize_in_full_screen: toggle_saved(t.block_minimize_in_full_screen, s.block_minimize_in_full_screen),
        window_always_on_top: toggle_saved(t.window_always_on_top, s.window_always_on_top),
        force_allow_dynamic_camera: toggle_saved(t.force_allow_dynamic_camera, s.force_allow_dynamic_camera),
        live_theater_allow_same_chara: toggle_saved(t.live_theater_allow_same_chara, s.live_theater_allow_same_chara),
        skill_info_dialog: toggle_saved(t.skill_info_dialog, s.skill_info_dialog),
        disable_skill_name_translation: toggle_saved(t.disable_skill_name_translation, s.disable_skill_name_translation),
        hide_ingame_ui_hotkey: toggle_saved(t.hide_ingame_ui_hotkey, s.hide_ingame_ui_hotkey),
        debug_mode: toggle_saved(t.debug_mode, s.debug_mode),
        enable_file_logging: toggle_saved(t.enable_file_logging, s.enable_file_logging),
        enable_ipc: toggle_saved(t.enable_ipc, s.enable_ipc),
        ipv4_only: toggle_saved(t.ipv4_only, s.ipv4_only),
        ipc_listen_all: toggle_saved(t.ipc_listen_all, s.ipc_listen_all),
    }
}

/// One setting after saving.
fn saved_toggle(reading: Option<bool>, current: bool) -> (r: bool)
    ensures
        r == toggle_saved(reading, current),
{
    match reading {
        Some(v) => v,
        None => current,
    }
}

/// Saves the toggles read from the dialog into the settings.
pub fn apply_settings_toggles(s: SettingsToggles, t: &SettingsToggleReadings) -> (r: SettingsToggles)
    ensures
        r == toggles_saved(s, *t),
{
    let disable_translations = saved_toggle(t.disable_translations, s.disable_translations);
    let auto_translate_stories = saved_toggle(t.auto_translate_stories, s.auto_translate_stories);
    let auto_translate_localize = saved_toggle(t.auto_translate_localize, s.auto_translate_localize);
    let translator_mode = saved_toggle(t.translator_mode, s.translator_mode);
    let lazy_translation_updates = saved_toggle(t.lazy_translation_updates, s.lazy_translation_updates);
    let disable_auto_update_check = saved_toggle(t.disable_auto_update_check, s.disable_auto_update_check);
    let disable_gui = saved_toggle(t.disable_gui, s.disable_gui);
    let apply_atlas_workaround = saved_toggle(t.apply_atlas_workaround, s.apply_atlas_workaround);
    let disable_outdated_asset_notif = saved_toggle(t.disable_outdated_asset_notif, s.disable_outdated_asset_notif);
    let skip_first_time_setup = saved_toggle(t.skip_first_time_setup, s.skip_first_time_setup);
    let discord_rpc = saved_toggle(t.discord_rpc, s.discord_rpc);
    let auto_full_screen = saved_toggle(t.auto_full_screen, s.auto_full_screen);
    let block_minimize_in_full_screen = saved_toggle(t.block_minimize_in_full_screen, s.block_minimize_in_full_screen);
    let window_always_on_top = saved_toggle(t.window_always_on_top, s.window_always_on_top);
    let force_allow_dynamic_camera = saved_toggle(t.force_allow_dynamic_camera, s.force_allow_dynamic_camera);
    let live_theater_allow_same_chara = saved_toggle(t.live_theater_allow_same_chara, s.live_theater_allow_same_chara);
    let skill_info_dialog = saved_toggle(t.skill_info_dialog, s.skill_info_dialog);
    let disable_skill_name_translation = saved_toggle(t.disable_skill_name_translation, s.disable_skill_name_translation);
    let hide_ingame_ui_hotkey = saved_toggle(t.hide_ingame_ui_hotkey, s.hide_ingame_ui_hotkey);
    let debug_mode = saved_toggle(t.debug_mode, s.debug_mode);
    let enable_file_logging = saved_toggle(t.enable_file_logging, s.enable_file_logging);
    let enable_ipc = saved_toggle(t.enable_ipc, s.enable_ipc);
    let ipv4_only = saved_toggle(t.ipv4_only, s.ipv4_only);
    let ipc_listen_all = saved_toggle(t.ipc_listen_all, s.ipc_listen_all);
    SettingsToggles {
        disable_translations,
        auto_translate_stories,
        auto_translate_localize,
        translator_mode,
        lazy_translation_updates,
        disable_auto_update_check,
        disable_gui,
        apply_atlas_workaround,
        disable_outdated_asset_notif,
        skip_first_time_setup,
        discord_rpc,
        auto_full_screen,
        block_minimize_in_full_screen,
        window_always_on_top,
        force_allow_dynamic_camera,
        live_theater_allow_same_chara,
        skill_info_dialog,
        disable_skill_name_translation,
        hide_ingame_ui_hotkey,
        debug_mode,
        enable_file_logging,
        enable_ipc,
        ipv4_only,
        ipc_listen_all,
    }
}

/// Saving a dialog whose toggles show the settings it was opened with changes
/// nothing.
pub proof fn lemma_saving_unchanged_toggles(s: SettingsToggles)
    ensures
        toggles_saved(
            s,
            SettingsToggleReadings {
                disable_translations: Some(s.disable_translations),
                auto_translate_stories: Some(s.auto_translate_stories),
                auto_translate_localize: Some(s.auto_translate_localize),
                translator_mode: Some(s.translator_mode),
                lazy_translation_updates: Some(s.lazy_translation_updates),
                disable_auto_update_check: Some(s.disable_auto_update_check),
                disable_gui: Some(s.disable_gui),
                apply_atlas_workaround: Some(s.apply_atlas_workaround),
                disable_outdated_asset_notif: Some(s.disable_outdated_asset_notif),
                skip_first_time_setup: Some(s.skip_first_time_setup),
                discord_rpc: Some(s.discord_rpc),
                auto_full_screen: Some(s.auto_full_screen),
                block_minimize_in_full_screen: Some(s.block_minimize_in_full_screen),
                window_always_on_top: Some(s.window_always_on_top),
                force_allow_dynamic_camera: Some(s.force_allow_dynamic_camera),
                live_theater_allow_same_chara: Some(s.live_theater_allow_same_chara),
                skill_info_dialog: Some(s.skill_info_dialog),
                disable_skill_name_translation: Some(s.disable_skill_name_translation),
                hide_ingame_ui_hotkey: Some(s.hide_ingame_ui_hotkey),
                debug_mode: Some(s.debug_mode),
                enable_file_logging: Some(s.enable_file_logging),
                enable_ipc: Some(s.enable_ipc),
                ipv4_only: Some(s.ipv4_only),
                ipc_listen_all: Some(s.ipc_listen_all),
            },
        ) == s,
{
}


/// A toggle found in the dialog saves the value it reads, whatever the setting was;
/// a toggle not found keeps its setting. Stated toggle by toggle.
pub proof fn lemma_found_toggle_saves_its_reading(s: SettingsToggles, t: SettingsToggleReadings)
    ensures
        match t.disable_translations {
            Some(v) => toggles_saved(s, t).disable_translations == v,
            None => toggles_saved(s, t).disable_translations == s.disable_translations,
        },
        match t.auto_translate_stories {
            Some(v) => toggles_saved(s, t).auto_translate_stories == v,
            None => toggles_saved(s, t).auto_translate_stories == s.auto_translate_stories,
        },
        match t.auto_translate_localize {
            Some(v) => toggles_saved(s, t).auto_translate_localize == v,
            None => toggles_saved(s, t).auto_translate_localize == s.auto_translate_localize,
        },
        match t.translator_mode {
            Some(v) => toggles_saved(s, t).translator_mode == v,
            None => toggles_saved(s, t).translator_mode == s.translator_mode,
        },
        match t.lazy_translation_updates {
            Some(v) => toggles_saved(s, t).lazy_translation_updates == v,
            None => toggles_saved(s, t).lazy_translation_updates == s.lazy_translation_updates,
        },
        match t.disable_auto_update_check {
            Some(v) => toggles_saved(s, t).disable_auto_update_check == v,
            None => toggles_saved(s, t).disable_auto_update_check == s.disable_auto_update_check,
        },
        match t.disable_gui {
            Some(v) => toggles_saved(s, t).disable_gui == v,
            None => toggles_saved(s, t).disable_gui == s.disable_gui,
        },
        match t.apply_atlas_workaround {
            Some(v) => toggles_saved(s, t).apply_atlas_workaround == v,
            None => toggles_saved(s, t).apply_atlas_workaround == s.apply_atlas_workaround,
        },
        match t.disable_outdated_asset_notif {
            Some(v) => toggles_saved(s, t).disable_outdated_asset_notif == v,
            None => toggles_saved(s, t).disable_outdated_asset_notif == s.disable_outdated_asset_notif,
        },
        match t.skip_first_time_setup {
            Some(v) => toggles_saved(s, t).skip_first_time_setup == v,
            None => toggles_saved(s, t).skip_first_time_setup == s.skip_first_time_setup,
        },
        match t.discord_rpc {
            Some(v) => toggles_saved(s, t).discord_rpc == v,
            None => toggles_saved(s, t).discord_rpc == s.discord_rpc,
        },
        match t.auto_full_screen {
            Some(v) => toggles_saved(s, t).auto_full_screen == v,
            None => toggles_saved(s, t).auto_full_screen == s.auto_full_screen,
        },
        match t.block_minimize_in_full_screen {
            Some(v) => toggles_saved(s, t).block_minimize_in_full_screen == v,
            None => toggles_saved(s, t).block_minimize_in_full_screen == s.block_minimize_in_full_screen,
        },
        match t.window_always_on_top {
            Some(v) => toggles_saved(s, t).window_always_on_top == v,
            None => toggles_saved(s, t).window_always_on_top == s.window_always_on_top,
        },
        match t.force_allow_dynamic_camera {
            Some(v) => toggles_saved(s, t).force_allow_dynamic_camera == v,
            None => toggles_saved(s, t).force_allow_dynamic_camera == s.force_allow_dynamic_camera,
        },
        match t.live_theater_allow_same_chara {
            Some(v) => toggles_saved(s, t).live_theater_allow_same_chara == v,
            None => toggles_saved(s, t).live_theater_allow_same_chara == s.live_theater_allow_same_chara,
        },
        match t.skill_info_dialog {
            Some(v) => toggles_saved(s, t).skill_info_dialog == v,
            None => toggles_saved(s, t).skill_info_dialog == s.skill_info_dialog,
        },
        match t.disable_skill_name_translation {
            Some(v) => toggles_saved(s, t).disable_skill_name_translation == v,
            None => toggles_saved(s, t).disable_skill_name_translation == s.disable_skill_name_translation,
        },
        match t.hide_ingame_ui_hotkey {
            Some(v) => toggles_saved(s, t).hide_ingame_ui_hotkey == v,
            None => toggles_saved(s, t).hide_ingame_ui_hotkey == s.hide_ingame_ui_hotkey,
        },
        match t.debug_mode {
            Some(v) => toggles_saved(s, t).debug_mode == v,
            None => toggles_saved(s, t).debug_mode == s.debug_mode,
        },
        match t.enable_file_logging {
            Some(v) => toggles_saved(s, t).enable_file_logging == v,
            None => toggles_saved(s, t).enable_file_logging == s.enable_file_logging,
        },
        match t.enable_ipc {
            Some(v) => toggles_saved(s, t).enable_ipc == v,
            None => toggles_saved(s, t).enable_ipc == s.enable_ipc,
        },
        match t.ipv4_only {
            Some(v) => toggles_saved(s, t).ipv4_only == v,
            None => toggles_saved(s, t).ipv4_only == s.ipv4_only,
        },
        match t.ipc_listen_all {
            Some(v) => toggles_saved(s, t).ipc_listen_all == v,
            None => toggles_saved(s, t).ipc_listen_all == s.ipc_listen_all,
        },
{
}

/// The text debugging switches after saving: `text_debug` takes its toggle's
/// reading when found; each detail switch takes its own toggle's reading when
/// found, else is switched off when text debugging was switched off, else keeps
/// its value.
pub proof fn lemma_text_debug_toggles_save_their_readings(f: TextDebugFlags, t: TextDebugToggles)
    ensures
        match t.text_debug {
            Some(v) => text_debug_after(f, t).text_debug == v,
            None => text_debug_after(f, t).text_debug == f.text_debug,
        },
        match t.text_log {
            Some(v) => text_debug_after(f, t).text_log == v,
            None => text_debug_after(f, t).text_log == if t.text_debug == Some(false) { false } else { f.text_log },
        },
        match t.text_property_dump {
            Some(v) => text_debug_after(f, t).text_property_dump == v,
            None => text_debug_after(f, t).text_property_dump == if t.text_debug == Some(false) { false } else { f.text_property_dump },
        },
        match t.text_localize_dump {
            Some(v) => text_debug_after(f, t).text_localize_dump == v,
            None => text_debug_after(f, t).text_localize_dump == if t.text_debug == Some(false) { false } else { f.text_localize_dump },
        },
        match t.text_position_debug {
            Some(v) => text_debug_after(f, t).text_position_debug == v,
            None => text_debug_after(f, t).text_position_debug == if t.text_debug == Some(false) { false } else { f.text_position_debug },
        },
        match t.text_path_debug {
            Some(v) => text_debug_after(f, t).text_path_debug == v,
            None => text_debug_after(f, t).text_path_debug == if t.text_debug == Some(false) { false } else { f.text_path_debug },
        },
{
}


/// Saving an option list with an option on calls the kept callback with that
/// option's position; opening keeps the new callback and calls nothing.
pub proof fn lemma_save_calls_kept_callback<T>(cb: T, other: Option<T>, selected: i32)
    ensures
        select_dialog_next(Some(cb), SelectDialogEvent::Save(Some(selected))) == (None::<T>, Some((cb, selected))),
        select_dialog_next(other, SelectDialogEvent::Open(cb)) == (Some(cb), None::<(T, i32)>),
        select_dialog_next(None::<T>, SelectDialogEvent::Save(Some(selected))).1 is None,
{
}

} // verus!
