//! Text generation: which text a `TextGenerator` is given, how its settings are
//! overridden by path, the template filters that adjust settings from inside a
//! text, and the queue of position offsets applied after generation.
//!
//! Floating-point settings are carried as the bit patterns of their `f32` values
//! (`f32::to_bits`): the logic here only copies them, compares them with zero or
//! passes them on, and those operations are exact on the bits.
use vstd::prelude::*;
use fnv::{FnvHashMap, FnvHashSet};
use crate::fnv_collections::{
    font_override_get, font_override_keys, font_override_table, id_set_contains, id_set_insert, lists_each_key_once, string_set_contains, string_set_insert, string_set_members,
    string_set_new, text_property_get, text_property_keys, text_property_table,
};
use crate::il2cpp::hook::hook_plan::{HookPlan, MethodHook};
use crate::text::{
    chars_are, chars_contain, chars_end_with, chars_include, chars_of, contains_infix, escape_chars,
    escaped, has_suffix,
    join_with, split_chars, split_on, string_from_chars, tail_chars, trim, trim_chars,
};

verus! {

/// The overflow mode that lets text run past its bounds (Unity's `Overflow`).
pub const TEXT_OVERFLOW_ALLOW: i32 = 1;

/// The overflow mode that wraps (horizontally) or truncates (vertically) text.
pub const TEXT_OVERFLOW_WRAP: i32 = 0;

/// The settings of one text generation that the hooks read or change.
/// `f32` fields are held as their bit patterns.
#[derive(Clone, Copy, Debug, PartialEq, Eq, Structural)]
pub struct TextGenerationSettings {
    pub font_size: i32,
    pub line_spacing: u32,
    pub horizontal_overflow: i32,
    pub vertical_overflow: i32,
    pub resize_text_for_best_fit: bool,
    pub resize_text_min_size: i32,
    pub resize_text_max_size: i32,
    pub update_bounds: bool,
    pub generate_out_of_bounds: bool,
    pub align_by_geometry: bool,
    pub generation_extents_x: u32,
    pub generation_extents_y: u32,
    pub rich_text: bool,
    pub scale_factor: u32,
    pub font_style: i32,
    pub text_anchor: i32,
    pub pivot_x: u32,
    pub pivot_y: u32,
}

/// Per-path overrides of text generation settings, read from the localization
/// data. Every field that is `Some` replaces the setting it names; `f32` values
/// are held as their bit patterns.
#[derive(Debug, Default)]
pub struct TextPropertyOverrides {
    pub font_size: Option<i32>,
    pub line_spacing: Option<u32>,
    pub horizontal_overflow: Option<i32>,
    pub vertical_overflow: Option<i32>,
    pub best_fit: Option<bool>,
    pub min_size: Option<i32>,
    pub max_size: Option<i32>,
    pub update_bounds: Option<bool>,
    pub generate_out_of_bounds: Option<bool>,
    pub align_by_geometry: Option<bool>,
    pub extents_x: Option<u32>,
    pub extents_y: Option<u32>,
    pub rich_text: Option<bool>,
    pub scale_factor: Option<u32>,
    pub font_style: Option<i32>,
    pub text_anchor: Option<i32>,
    pub pivot_x: Option<u32>,
    pub pivot_y: Option<u32>,
    pub position_offset_x: Option<u32>,
    pub position_offset_y: Option<u32>,
    pub position_target_ancestor: Option<u32>,
    pub text_override: Option<String>,
    pub sibling_name: Option<String>,
    pub sibling_offset_x: Option<u32>,
    pub sibling_offset_y: Option<u32>,
}

// ---------------------------------------------------------------------------
// Override lookup by hierarchy path
/// A key `/suffix` of an override map stands for every path that ends with `suffix`.
pub open spec fn matches_path_pattern(key: Seq<char>, path: Seq<char>) -> bool {
    key.len() > 0 && key[0] == '/' && has_suffix(path, key.drop_first())
}

/// Some key of `table` is a pattern that `path` matches.
pub open spec fn some_pattern_matches<V>(table: Map<Seq<char>, V>, path: Seq<char>) -> bool {
    exists|k: Seq<char>| table.contains_key(k) && #[trigger] matches_path_pattern(k, path)
}

/// What a lookup of `path` in an override table may give: the entry of the path
/// itself if there is one; else the entry of one of the patterns that the path
/// matches, if any does; else nothing.
pub open spec fn override_lookup<V>(table: Map<Seq<char>, V>, path: Seq<char>, r: Option<V>) -> bool {
    if table.contains_key(path) {
        r == Some(table[path])
    } else if some_pattern_matches(table, path) {
        exists|k: Seq<char>|
            table.contains_key(k) && #[trigger] matches_path_pattern(k, path) && r == Some(table[k])
    } else {
        r is None
    }
}

/// Whether the key `key` is a pattern that `path` matches.
pub fn path_pattern_matches(key: &Vec<char>, path: &Vec<char>) -> (r: bool)
    ensures
        r == matches_path_pattern(key@, path@),
{
    if key.len() == 0 || key[0] != '/' {
        return false;
    }
    let rest = tail_chars(key, 1);
    assert(rest@ =~= key@.drop_first());
    chars_end_with(path, &rest)
}

/// The text property overrides for `path`: those of the path itself, else those of
/// a `/suffix` pattern that the path ends with (the first such key in the map's own
/// order), else none.
pub fn find_text_property_override<'a>(
    overrides: &'a FnvHashMap<String, TextPropertyOverrides>,
    path: &str,
) -> (r: Option<&'a TextPropertyOverrides>)
    ensures
        override_lookup(
            text_property_table(*overrides),
            path@,
            match r {
                Some(p) => Some(*p),
                None => None,
            },
        ),
{
    let ghost table = text_property_table(*overrides);
    if let Some(props) = text_property_get(overrides, path) {
        return Some(props);
    }
    let keys = text_property_keys(overrides);
    let p = chars_of(path);
    let mut i: usize = 0;
    while i < keys.len()
        invariant
            table == text_property_table(*overrides),
            !table.contains_key(path@),
            p@ == path@,
            lists_each_key_once(keys@, table),
            i <= keys.len(),
            forall|j: int| 0 <= j < i ==> !matches_path_pattern(#[trigger] keys@[j]@, path@),
        decreases keys.len() - i,
    {
        let k = chars_of(keys[i].as_str());
        if path_pattern_matches(&k, &p) {
            let found = text_property_get(overrides, keys[i].as_str());
            assert(table.contains_key(keys@[i as int]@));
            assert(matches_path_pattern(keys@[i as int]@, path@));
            return found;
        }
        i = i + 1;
    }
    assert forall|k: Seq<char>| table.contains_key(k) implies !#[trigger] matches_path_pattern(
        k,
        path@,
    ) by {
        let j = choose|j: int| 0 <= j < keys@.len() && #[trigger] keys@[j]@ == k;
        assert(!matches_path_pattern(keys@[j]@, path@));
    }
    None
}

/// The font size override for `path`: that of the path itself, else that of a
/// `/suffix` pattern that the path ends with (the first such key in the map's own
/// order), else none.
pub fn find_font_override(overrides: &FnvHashMap<String, i32>, path: &str) -> (r: Option<i32>)
    ensures
        override_lookup(font_override_table(*overrides), path@, r),
{
    let ghost table = font_override_table(*overrides);
    if let Some(size) = font_override_get(overrides, path) {
        return Some(size);
    }
    let keys = font_override_keys(overrides);
    let p = chars_of(path);
    let mut i: usize = 0;
    while i < keys.len()
        invariant
            table == font_override_table(*overrides),
            !table.contains_key(path@),
            p@ == path@,
            lists_each_key_once(keys@, table),
            i <= keys.len(),
            forall|j: int| 0 <= j < i ==> !matches_path_pattern(#[trigger] keys@[j]@, path@),
        decreases keys.len() - i,
    {
        let k = chars_of(keys[i].as_str());
        if path_pattern_matches(&k, &p) {
            let found = font_override_get(overrides, keys[i].as_str());
            assert(table.contains_key(keys@[i as int]@));
            assert(matches_path_pattern(keys@[i as int]@, path@));
            return found;
        }
        i = i + 1;
    }
    assert forall|k: Seq<char>| table.contains_key(k) implies !#[trigger] matches_path_pattern(
        k,
        path@,
    ) by {
        let j = choose|j: int| 0 <= j < keys@.len() && #[trigger] keys@[j]@ == k;
        assert(!matches_path_pattern(keys@[j]@, path@));
    }
    None
}

// ---------------------------------------------------------------------------
// Template filters
/// The first argument of a filter, as the template parser gives it: absent, not a
/// number, or a number literal, held both converted to `i32` (saturating, as
/// `as i32` does) and as the bit pattern of its `f64` value (`f64::to_bits`).
#[derive(Clone, Copy, Debug, PartialEq, Eq, Structural)]
pub enum FilterArg {
    Missing,
    NotNumber,
    Number(i32, u64),
}

/// A filter that a text may apply to its own generation settings.
#[derive(Clone, Copy, Debug, PartialEq, Eq, Structural)]
pub enum TextFilter {
    /// `nb`: no line breaks; the text may overflow its bounds.
    NoBreak,
    /// `anchor`: the text anchor, 0 to 8 (given as 1 to 9).
    Anchor(i32),
    /// `scale`: scales the font size by the percentage whose `f64` bits it holds.
    Scale(u64),
    /// `ho`: horizontal overflow, 0 or 1.
    HorizontalOverflow(i32),
    /// `vo`: vertical overflow, 0 or 1.
    VerticalOverflow(i32),
    /// `ls`: sets the line spacing to the `f64` value whose bits it holds.
    LineSpacing(u64),
    /// `ub`: update bounds.
    UpdateBounds,
    /// `bf` / `bestfit`: resize text for best fit.
    BestFit,
    /// `min`: minimum size for best fit.
    MinSize(i32),
    /// `max`: maximum size for best fit.
    MaxSize(i32),
    /// `oob`: generate out of bounds.
    OutOfBounds,
}

/// The filter named `name` with first argument `arg`, if it is one and its
/// argument is acceptable.
pub open spec fn text_filter_spec(name: Seq<char>, arg: FilterArg) -> Option<TextFilter> {
    if name == "nb"@ {
        Some(TextFilter::NoBreak)
    } else if name == "anchor"@ {
        match arg {
            FilterArg::Number(n, _) => if 1 <= n && n <= 9 {
                Some(TextFilter::Anchor((n - 1) as i32))
            } else {
                None
            },
            _ => None,
        }
    } else if name == "scale"@ {
        match arg {
            FilterArg::Number(_, b) => Some(TextFilter::Scale(b)),
            _ => None,
        }
    } else if name == "ho"@ {
        match arg {
            FilterArg::Number(n, _) => if n == 0 || n == 1 {
                Some(TextFilter::HorizontalOverflow(n))
            } else {
                None
            },
            _ => None,
        }
    } else if name == "vo"@ {
        match arg {
            FilterArg::Number(n, _) => if n == 0 || n == 1 {
                Some(TextFilter::VerticalOverflow(n))
            } else {
                None
            },
            _ => None,
        }
    } else if name == "ls"@ {
        match arg {
            FilterArg::Number(_, b) => Some(TextFilter::LineSpacing(b)),
            _ => None,
        }
    } else if name == "ub"@ {
        Some(TextFilter::UpdateBounds)
    } else if name == "bf"@ || name == "bestfit"@ {
        Some(TextFilter::BestFit)
    } else if name == "min"@ {
        match arg {
            FilterArg::Number(n, _) => Some(TextFilter::MinSize(n)),
            _ => None,
        }
    } else if name == "max"@ {
        match arg {
            FilterArg::Number(n, _) => Some(TextFilter::MaxSize(n)),
            _ => None,
        }
    } else if name == "oob"@ {
        Some(TextFilter::OutOfBounds)
    } else {
        None
    }
}

/// The names of all the filters that act on text generation settings.
pub open spec fn is_text_generation_filter_name(name: Seq<char>) -> bool {
    ||| name == "nb"@
    ||| name == "anchor"@
    ||| name == "scale"@
    ||| name == "ho"@
    ||| name == "vo"@
    ||| name == "ls"@
    ||| name == "ub"@
    ||| name == "bf"@
    ||| name == "bestfit"@
    ||| name == "min"@
    ||| name == "max"@
    ||| name == "oob"@
}

/// The settings held here after the filter `f`. `Scale` and `LineSpacing` compute
/// on their `f64` argument (the font size times the percentage over 100, truncated;
/// the value converted to `f32`); that float step is left to the caller (see
/// `float_step_of`), so they leave the settings held here as they are.
pub open spec fn filter_applied(s: TextGenerationSettings, f: TextFilter) -> TextGenerationSettings {
    match f {
        TextFilter::NoBreak => TextGenerationSettings {
            horizontal_overflow: TEXT_OVERFLOW_ALLOW,
            generate_out_of_bounds: true,
            ..s
        },
        TextFilter::Anchor(a) => TextGenerationSettings { text_anchor: a, ..s },
        TextFilter::Scale(_) => s,
        TextFilter::HorizontalOverflow(o) => TextGenerationSettings { horizontal_overflow: o, ..s },
        TextFilter::VerticalOverflow(o) => TextGenerationSettings { vertical_overflow: o, ..s },
        TextFilter::LineSpacing(_) => s,
        TextFilter::UpdateBounds => TextGenerationSettings { update_bounds: true, ..s },
        TextFilter::BestFit => TextGenerationSettings { resize_text_for_best_fit: true, ..s },
        TextFilter::MinSize(m) => TextGenerationSettings { resize_text_min_size: m, ..s },
        TextFilter::MaxSize(m) => TextGenerationSettings { resize_text_max_size: m, ..s },
        TextFilter::OutOfBounds => TextGenerationSettings { generate_out_of_bounds: true, ..s },
    }
}

/// The float step that filter `f` leaves to the caller: the filter itself for
/// `Scale` and `LineSpacing`, none for the others.
pub open spec fn float_step_of(f: TextFilter) -> Option<TextFilter> {
    match f {
        TextFilter::Scale(_) => Some(f),
        TextFilter::LineSpacing(_) => Some(f),
        _ => None,
    }
}

/// The first argument of a filter call, or `Missing` when there is none.
pub open spec fn first_arg(args: Seq<FilterArg>) -> FilterArg {
    if args.len() == 0 {
        FilterArg::Missing
    } else {
        args[0]
    }
}

/// Recognizes the filter `name` applied to `arg`.
pub fn parse_text_filter(name: &str, arg: FilterArg) -> (r: Option<TextFilter>)
    ensures
        r == text_filter_spec(name@, arg),
{
    let n = chars_of(name);
    if chars_are(&n, "nb") {
        Some(TextFilter::NoBreak)
    } else if chars_are(&n, "anchor") {
        match arg {
            FilterArg::Number(v, _) => if 1 <= v && v <= 9 {
                Some(TextFilter::Anchor(v - 1))
            } else {
                None
            },
            _ => None,
        }
    } else if chars_are(&n, "scale") {
        match arg {
            FilterArg::Number(_, b) => Some(TextFilter::Scale(b)),
            _ => None,
        }
    } else if chars_are(&n, "ho") {
        match arg {
            FilterArg::Number(v, _) => if v == 0 || v == 1 {
                Some(TextFilter::HorizontalOverflow(v))
            } else {
                None
            },
            _ => None,
        }
    } else if chars_are(&n, "vo") {
        match arg {
            FilterArg::Number(v, _) => if v == 0 || v == 1 {
                Some(TextFilter::VerticalOverflow(v))
            } else {
                None
            },
            _ => None,
        }
    } else if chars_are(&n, "ls") {
        match arg {
            FilterArg::Number(_, b) => Some(TextFilter::LineSpacing(b)),
            _ => None,
        }
    } else if chars_are(&n, "ub") {
        Some(TextFilter::UpdateBounds)
    } else if chars_are(&n, "bf") || chars_are(&n, "bestfit") {
        Some(TextFilter::BestFit)
    } else if chars_are(&n, "min") {
        match arg {
            FilterArg::Number(v, _) => Some(TextFilter::MinSize(v)),
            _ => None,
        }
    } else if chars_are(&n, "max") {
        match arg {
            FilterArg::Number(v, _) => Some(TextFilter::MaxSize(v)),
            _ => None,
        }
    } else if chars_are(&n, "oob") {
        Some(TextFilter::OutOfBounds)
    } else {
        None
    }
}

/// Applies the filter `f` to the settings held here; the float step of `Scale` and
/// `LineSpacing` is the caller's.
pub fn apply_text_filter(settings: &mut TextGenerationSettings, f: TextFilter)
    ensures
        *final(settings) == filter_applied(*old(settings), f),
{
    match f {
        TextFilter::NoBreak => {
            settings.horizontal_overflow = TEXT_OVERFLOW_ALLOW;
            settings.generate_out_of_bounds = true;
        },
        TextFilter::Anchor(a) => {
            settings.text_anchor = a;
        },
        TextFilter::Scale(_) => {},
        TextFilter::HorizontalOverflow(o) => {
            settings.horizontal_overflow = o;
        },
        TextFilter::VerticalOverflow(o) => {
            settings.vertical_overflow = o;
        },
        TextFilter::LineSpacing(_) => {},
        TextFilter::UpdateBounds => {
            settings.update_bounds = true;
        },
        TextFilter::BestFit => {
            settings.resize_text_for_best_fit = true;
        },
        TextFilter::MinSize(m) => {
            settings.resize_text_min_size = m;
        },
        TextFilter::MaxSize(m) => {
            settings.resize_text_max_size = m;
        },
        TextFilter::OutOfBounds => {
            settings.generate_out_of_bounds = true;
        },
    }
}

/// The filter context of a text being generated: filters in the text change its
/// settings. `float_step` is the float step that the last filter evaluated leaves
/// to the caller (`scale` or `ls`), which the caller applies to `settings`.
pub struct TemplateContext {
    pub settings: TextGenerationSettings,
    pub float_step: Option<TextFilter>,
}

impl TemplateContext {
    /// Evaluates the filter `name` with arguments `args`. A known filter with an
    /// acceptable first argument changes the settings and evaluates to the empty
    /// string; anything else evaluates to nothing and changes no setting. For
    /// `scale` and `ls` the floating-point change is left to the caller, and the
    /// filter, with its argument, is left in `float_step`.
    pub fn on_filter_eval(&mut self, name: &str, args: &[FilterArg]) -> (r: Option<String>)
        ensures
            match text_filter_spec(name@, first_arg(args@)) {
                Some(f) => {
                    &&& r matches Some(s) && s@ == Seq::<char>::empty()
                    &&& final(self).settings == filter_applied(old(self).settings, f)
                    &&& final(self).float_step == float_step_of(f)
                },
                None => {
                    &&& r is None
                    &&& final(self).settings == old(self).settings
                    &&& final(self).float_step is None
                },
            },
    {
        let arg = if args.len() == 0 {
            FilterArg::Missing
        } else {
            args[0]
        };
        match parse_text_filter(name, arg) {
            Some(f) => {
                apply_text_filter(&mut self.settings, f);
                self.float_step = match f {
                    TextFilter::Scale(_) => Some(f),
                    TextFilter::LineSpacing(_) => Some(f),
                    _ => None,
                };
                Some(String::new())
            },
            None => {
                self.float_step = None;
                None
            },
        }
    }
}

/// A filter context that accepts the text generation filters and does nothing with
/// them, for texts that are not being generated.
pub struct IgnoreTGFiltersContext();

impl IgnoreTGFiltersContext {
    /// Evaluates to the empty string for the name of a text generation filter,
    /// whatever its arguments, and to nothing for any other name.
    pub fn on_filter_eval(&mut self, name: &str, args: &[FilterArg]) -> (r: Option<String>)
        ensures
            r is Some == is_text_generation_filter_name(name@),
            r matches Some(s) ==> s@ == Seq::<char>::empty(),
    {
        let n = chars_of(name);
        if chars_are(&n, "nb") || chars_are(&n, "anchor") || chars_are(&n, "scale") || chars_are(
            &n,
            "ho",
        ) || chars_are(&n, "vo") || chars_are(&n, "ls") || chars_are(&n, "ub") || chars_are(
            &n,
            "bf",
        ) || chars_are(&n, "bestfit") || chars_are(&n, "min") || chars_are(&n, "max")
            || chars_are(&n, "oob") {
            Some(String::new())
        } else {
            None
        }
    }
}

/// Every filter that a generated text may apply is one that the ignoring context
/// accepts, and every name that the ignoring context accepts names a filter that
/// takes effect with some argument.
pub proof fn lemma_ignored_filters_are_text_filters(name: Seq<char>, arg: FilterArg)
    ensures
        text_filter_spec(name, arg) is Some ==> is_text_generation_filter_name(name),
        is_text_generation_filter_name(name) ==> text_filter_spec(name, FilterArg::Number(1, 0x3ff0_0000_0000_0000)) is Some,
{
}

// ---------------------------------------------------------------------------
// System text components
/// Whether a generation must wrap horizontally, given the registered ids: always
/// while a system text query runs; otherwise when the context object, or (when
/// there is no context) the generator itself, is registered. `None` stands for a
/// null object.
pub open spec fn forced_wrap(ids: Set<i32>, system_query_active: bool, context_id: Option<i32>, this_id: Option<i32>) -> bool {
    system_query_active || match context_id {
        Some(c) => ids.contains(c),
        None => match this_id {
            Some(t) => ids.contains(t),
            None => false,
        },
    }
}

/// The ids registered after marking component `id`, whose game object (if any) is
/// `game_object_id`.
pub open spec fn marked(ids: Set<i32>, id: i32, game_object_id: Option<i32>) -> Set<i32> {
    match game_object_id {
        Some(g) => ids.insert(id).insert(g),
        None => ids.insert(id),
    }
}

/// Once a component is marked, every generation in its context wraps, and so does
/// every generation in the context of its game object; marking never stops any
/// generation from wrapping.
pub proof fn lemma_marked_component_wraps(
    ids: Set<i32>,
    id: i32,
    game_object_id: Option<i32>,
    active: bool,
    context_id: Option<i32>,
    this_id: Option<i32>,
)
    ensures
        forced_wrap(marked(ids, id, game_object_id), active, Some(id), this_id),
        game_object_id is Some ==> forced_wrap(
            marked(ids, id, game_object_id),
            active,
            Some(game_object_id->0),
            this_id,
        ),
        forced_wrap(ids, active, context_id, this_id) ==> forced_wrap(
            marked(ids, id, game_object_id),
            active,
            context_id,
            this_id,
        ),
{
}

/// The instance ids of text components (and of their game objects) that show
/// system text, whose generation is always wrapped.
pub struct SystemTextComponents {
    ids: FnvHashSet<i32>,
}

impl SystemTextComponents {
    /// The ids registered so far.
    pub closed spec fn view(&self) -> Set<i32> {
        self.ids@
    }

    /// No component registered.
    pub fn new() -> (r: Self)
        ensures
            r.view() == Set::<i32>::empty(),
    {
        SystemTextComponents { ids: FnvHashSet::default() }
    }

    /// Whether the id is registered.
    pub fn contains(&self, id: i32) -> (r: bool)
        ensures
            r == self.view().contains(id),
    {
        id_set_contains(&self.ids, id)
    }

    /// Whether a generation must wrap horizontally: always while a system text query
    /// runs; otherwise when the context object, or (when there is no context) the
    /// generator itself, is a registered component. `None` stands for a null object.
    pub fn should_force_wrap(&self, system_query_active: bool, context_id: Option<i32>, this_id: Option<
        i32,
    >) -> (r: bool)
        ensures
            r == forced_wrap(self.view(), system_query_active, context_id, this_id),
    {
        if system_query_active {
            return true;
        }
        match context_id {
            Some(c) => self.contains(c),
            None => match this_id {
                Some(t) => self.contains(t),
                None => false,
            },
        }
    }
}

/// Registers a text component as showing system text, by its instance id and,
/// where the component is a UI `Text` with a game object, that game object's id too.
pub fn mark_as_system_text_component(components: &mut SystemTextComponents, id: i32, game_object_id: Option<i32>)
    ensures
        final(components).view() == marked(old(components).view(), id, game_object_id),
{
    id_set_insert(&mut components.ids, id);
    if let Some(g) = game_object_id {
        id_set_insert(&mut components.ids, g);
    }
}

// ---------------------------------------------------------------------------
// Property dumps
/// Whether `path` is dumped now, given the paths dumped so far (only the first time),
/// and the paths dumped afterwards.
pub open spec fn dump_decision(dumped: Set<Seq<char>>, path: Seq<char>) -> (bool, Set<Seq<char>>) {
    (!dumped.contains(path), dumped.insert(path))
}

/// The hierarchy paths whose properties have been dumped: each path is dumped once.
pub struct DumpedPaths {
    paths: FnvHashSet<String>,
}

impl DumpedPaths {
    /// The paths dumped so far.
    pub closed spec fn view(&self) -> Set<Seq<char>> {
        string_set_members(self.paths)
    }

    /// No path dumped yet.
    pub fn new() -> (r: Self)
        ensures
            r.view() == Set::<Seq<char>>::empty(),
    {
        DumpedPaths { paths: string_set_new() }
    }

    /// Whether `path` is to be dumped now: true the first time it is asked, after
    /// which the path counts as dumped.
    pub fn should_dump(&mut self, path: &str) -> (r: bool)
        ensures
            (r, final(self).view()) == dump_decision(old(self).view(), path@),
    {
        if string_set_contains(&self.paths, path) {
            return false;
        }
        let owned = path.to_owned();
        string_set_insert(&mut self.paths, owned);
        true
    }
}

/// A path is dumped at most once: once `should_dump` has said yes for a path, it
/// says no for that path from then on, whatever other paths are asked meanwhile.
pub proof fn lemma_path_dumped_once(before: Set<Seq<char>>, path: Seq<char>, other: Seq<char>)
    ensures
        dump_decision(dump_decision(before, path).1, path).0 == false,
        dump_decision(dump_decision(dump_decision(before, path).1, other).1, path).0 == false,
{
}

// ---------------------------------------------------------------------------
// The text handed to the generator
/// A replacement text and whether it holds template syntax (a `$`).
#[derive(Debug)]
pub struct SourceText {
    pub text: String,
    pub has_template: bool,
}

/// `r` is the text that replaces `original` before generation, given the entry of
/// the hashed dictionary and whether localization dictionaries are loaded.
pub open spec fn source_selected(hashed: Option<String>, has_localize_dicts: bool, original: Seq<char>, r: Option<SourceText>) -> bool {
    match hashed {
        Some(t) => r matches Some(s) && s.text@ == t@ && s.has_template == t@.contains('$'),
        None => if has_localize_dicts && original.contains('$') {
            r matches Some(s) && s.text@ == original && s.has_template
        } else {
            r is None
        },
    }
}

/// The text that replaces the original one before generation: the entry of the
/// hashed dictionary when there is one; else, when localization dictionaries are
/// loaded, the original text itself if it holds a `$` (a template). `None` means
/// the original text is generated unchanged.
pub fn select_source_text(hashed: Option<String>, has_localize_dicts: bool, original: &str) -> (r:
    Option<SourceText>)
    ensures
        source_selected(hashed, has_localize_dicts, original@, r),
{
    match hashed {
        Some(t) => {
            let c = chars_of(t.as_str());
            let has_template = chars_include(&c, '$');
            Some(SourceText { text: t, has_template })
        },
        None => {
            if has_localize_dicts {
                let c = chars_of(original);
                if chars_include(&c, '$') {
                    return Some(SourceText { text: string_from_chars(&c), has_template: true });
                }
            }
            None
        },
    }
}

// ---------------------------------------------------------------------------
// Applying overrides
/// The settings after the `Some` fields of `p` have replaced theirs.
pub open spec fn properties_applied(s: TextGenerationSettings, p: TextPropertyOverrides) -> TextGenerationSettings {
    TextGenerationSettings {
        font_size: value_or(p.font_size, s.font_size),
        line_spacing: value_or(p.line_spacing, s.line_spacing),
        horizontal_overflow: value_or(p.horizontal_overflow, s.horizontal_overflow),
        vertical_overflow: value_or(p.vertical_overflow, s.vertical_overflow),
        resize_text_for_best_fit: value_or(p.best_fit, s.resize_text_for_best_fit),
        resize_text_min_size: value_or(p.min_size, s.resize_text_min_size),
        resize_text_max_size: value_or(p.max_size, s.resize_text_max_size),
        update_bounds: value_or(p.update_bounds, s.update_bounds),
        generate_out_of_bounds: value_or(p.generate_out_of_bounds, s.generate_out_of_bounds),
        align_by_geometry: value_or(p.align_by_geometry, s.align_by_geometry),
        generation_extents_x: value_or(p.extents_x, s.generation_extents_x),
        generation_extents_y: value_or(p.extents_y, s.generation_extents_y),
        rich_text: value_or(p.rich_text, s.rich_text),
        scale_factor: value_or(p.scale_factor, s.scale_factor),
        font_style: value_or(p.font_style, s.font_style),
        text_anchor: value_or(p.text_anchor, s.text_anchor),
        pivot_x: value_or(p.pivot_x, s.pivot_x),
        pivot_y: value_or(p.pivot_y, s.pivot_y),
    }
}

/// The value held, or `current` when there is none.
pub open spec fn value_or<T>(v: Option<T>, current: T) -> T {
    match v {
        Some(x) => x,
        None => current,
    }
}

/// The value held, or `current` when there is none.
pub fn or_current<T: Copy>(v: Option<T>, current: T) -> (r: T)
    ensures
        r == value_or(v, current),
{
    match v {
        Some(x) => x,
        None => current,
    }
}

/// Replaces each setting for which `p` holds a value.
pub fn apply_text_property_overrides(settings: &mut TextGenerationSettings, p: &TextPropertyOverrides)
    ensures
        *final(settings) == properties_applied(*old(settings), *p),
{
    let s = *settings;
    *settings = TextGenerationSettings {
        font_size: or_current(p.font_size, s.font_size),
        line_spacing: or_current(p.line_spacing, s.line_spacing),
        horizontal_overflow: or_current(p.horizontal_overflow, s.horizontal_overflow),
        vertical_overflow: or_current(p.vertical_overflow, s.vertical_overflow),
        resize_text_for_best_fit: or_current(p.best_fit, s.resize_text_for_best_fit),
        resize_text_min_size: or_current(p.min_size, s.resize_text_min_size),
        resize_text_max_size: or_current(p.max_size, s.resize_text_max_size),
        update_bounds: or_current(p.update_bounds, s.update_bounds),
        generate_out_of_bounds: or_current(p.generate_out_of_bounds, s.generate_out_of_bounds),
        align_by_geometry: or_current(p.align_by_geometry, s.align_by_geometry),
        generation_extents_x: or_current(p.extents_x, s.generation_extents_x),
        generation_extents_y: or_current(p.extents_y, s.generation_extents_y),
        rich_text: or_current(p.rich_text, s.rich_text),
        scale_factor: or_current(p.scale_factor, s.scale_factor),
        font_style: or_current(p.font_style, s.font_style),
        text_anchor: or_current(p.text_anchor, s.text_anchor),
        pivot_x: or_current(p.pivot_x, s.pivot_x),
        pivot_y: or_current(p.pivot_y, s.pivot_y),
    };
}

/// Overrides that set nothing leave the settings as they are.
pub proof fn lemma_empty_overrides_change_nothing(s: TextGenerationSettings, p: TextPropertyOverrides)
    requires
        p.font_size is None, p.line_spacing is None, p.horizontal_overflow is None,
        p.vertical_overflow is None, p.best_fit is None, p.min_size is None, p.max_size is None,
        p.update_bounds is None, p.generate_out_of_bounds is None, p.align_by_geometry is None,
        p.extents_x is None, p.extents_y is None, p.rich_text is None, p.scale_factor is None,
        p.font_style is None, p.text_anchor is None, p.pivot_x is None, p.pivot_y is None,
    ensures
        properties_applied(s, p) == s,
{
}

/// Applying the same overrides twice gives what applying them once gives.
pub proof fn lemma_overrides_idempotent(s: TextGenerationSettings, p: TextPropertyOverrides)
    ensures
        properties_applied(properties_applied(s, p), p) == properties_applied(s, p),
{
}

/// Where a text moves after generation: its own offset, and optionally siblings
/// (named, comma separated) with their offset. `f32` values as bit patterns.
#[derive(Debug)]
pub struct PositionOffsetRequest {
    pub offset_x: u32,
    pub offset_y: u32,
    pub target_ancestor: u32,
    pub sibling_name: Option<String>,
    pub sibling_offset_x: u32,
    pub sibling_offset_y: u32,
}

/// The value of an optional `f32` (as bits), `0.0` when absent.
pub open spec fn bits_or_zero(v: Option<u32>) -> u32 {
    match v {
        Some(b) => b,
        None => 0,
    }
}

/// Whether overrides ask for a position offset: an own offset on either axis, or a
/// sibling to move.
pub open spec fn requests_position_offset(p: TextPropertyOverrides) -> bool {
    p.position_offset_x is Some || p.position_offset_y is Some || p.sibling_name is Some
}

/// `q` is the offset that the overrides `p` ask for: absent values as `0.0`, an
/// absent ancestor level as 0 (the text itself).
pub open spec fn offset_request_of(p: TextPropertyOverrides, q: PositionOffsetRequest) -> bool {
    &&& q.offset_x == bits_or_zero(p.position_offset_x)
    &&& q.offset_y == bits_or_zero(p.position_offset_y)
    &&& q.target_ancestor == match p.position_target_ancestor {
        Some(a) => a,
        None => 0,
    }
    &&& q.sibling_name == p.sibling_name
    &&& q.sibling_offset_x == bits_or_zero(p.sibling_offset_x)
    &&& q.sibling_offset_y == bits_or_zero(p.sibling_offset_y)
}

/// The position offset that the overrides ask for, with absent values as `0.0`
/// and an absent ancestor level as 0 (the text itself).
pub fn position_offset_request(p: &TextPropertyOverrides) -> (r: Option<PositionOffsetRequest>)
    ensures
        r is Some == requests_position_offset(*p),
        r matches Some(q) ==> offset_request_of(*p, q),
{
    if p.position_offset_x.is_none() && p.position_offset_y.is_none() && p.sibling_name.is_none() {
        return None;
    }
    let sibling_name = match &p.sibling_name {
        Some(n) => Some(n.clone()),
        None => None,
    };
    Some(PositionOffsetRequest {
        offset_x: match p.position_offset_x { Some(b) => b, None => 0 },
        offset_y: match p.position_offset_y { Some(b) => b, None => 0 },
        target_ancestor: match p.position_target_ancestor { Some(a) => a, None => 0 },
        sibling_name,
        sibling_offset_x: match p.sibling_offset_x { Some(b) => b, None => 0 },
        sibling_offset_y: match p.sibling_offset_y { Some(b) => b, None => 0 },
    })
}

/// What the generation hook does besides the settings: the text it generates
/// (`None`: the original one) and the position offset it queues, if any.
#[derive(Debug)]
pub struct TextGenerationPlan {
    pub source: Option<SourceText>,
    pub position_offset: Option<PositionOffsetRequest>,
}

/// The settings after the fixed adjustments: forced wrapping, and the layout that
/// character message boxes always get.
pub open spec fn fixed_adjustments(s: TextGenerationSettings, force_wrap: bool, path: Seq<char>) -> TextGenerationSettings {
    let wrapped = if force_wrap {
        TextGenerationSettings { horizontal_overflow: TEXT_OVERFLOW_WRAP, ..s }
    } else {
        s
    };
    if contains_infix(path, "PartsCharaMessage"@) {
        TextGenerationSettings {
            horizontal_overflow: TEXT_OVERFLOW_WRAP,
            vertical_overflow: TEXT_OVERFLOW_ALLOW,
            resize_text_max_size: 30,
            ..wrapped
        }
    } else {
        wrapped
    }
}

/// The settings after a font size override, if one was found.
pub open spec fn font_applied(s: TextGenerationSettings, font: Option<i32>) -> TextGenerationSettings {
    match font {
        Some(size) => TextGenerationSettings { font_size: size, ..s },
        None => s,
    }
}

/// `plan` and the settings `after` are what the generation hook decides for the
/// text at `path` from the settings `before`, the replacement text `source` and
/// whether wrapping is forced, with the given override tables (see
/// `plan_text_generation`).
pub open spec fn planned(
    before: TextGenerationSettings,
    after: TextGenerationSettings,
    source: Option<SourceText>,
    force_wrap: bool,
    path: Seq<char>,
    font_table: Map<Seq<char>, i32>,
    property_table: Map<Seq<char>, TextPropertyOverrides>,
    plan: TextGenerationPlan,
) -> bool {
    exists|font: Option<i32>, props: Option<TextPropertyOverrides>|
        {
            &&& override_lookup(font_table, path, font)
            &&& override_lookup(property_table, path, props)
            &&& after == match props {
                Some(p) => properties_applied(
                    font_applied(fixed_adjustments(before, force_wrap, path), font),
                    p,
                ),
                None => font_applied(fixed_adjustments(before, force_wrap, path), font),
            }
            &&& match props {
                Some(p) => {
                    &&& plan.position_offset is Some == requests_position_offset(p)
                    &&& plan.position_offset matches Some(q) ==> offset_request_of(p, q)
                    &&& match p.text_override {
                        Some(t) => plan.source matches Some(st) && st.text@ == t@
                            && st.has_template == t@.contains('$'),
                        None => plan.source == source,
                    }
                },
                None => plan.position_offset is None && plan.source == source,
            }
        }
}

/// What the generation hook decides for the text at `path`, given the settings it
/// was called with, the replacement text chosen so far, and whether wrapping is
/// forced. In order: forced wrapping; the fixed layout of character message boxes;
/// the font size override of the path; the text property overrides of the path,
/// whose `text_override` replaces the text and whose offsets are queued.
pub fn plan_text_generation(
    settings: &mut TextGenerationSettings,
    source: Option<SourceText>,
    force_wrap: bool,
    path: &str,
    font_overrides: &FnvHashMap<String, i32>,
    property_overrides: &FnvHashMap<String, TextPropertyOverrides>,
) -> (plan: TextGenerationPlan)
    ensures
        planned(
            *old(settings),
            *final(settings),
            source,
            force_wrap,
            path@,
            font_override_table(*font_overrides),
            text_property_table(*property_overrides),
            plan,
        ),
{
    if force_wrap {
        settings.horizontal_overflow = TEXT_OVERFLOW_WRAP;
    }
    let p = chars_of(path);
    let marker = chars_of("PartsCharaMessage");
    if chars_contain(&p, &marker) {
        settings.horizontal_overflow = TEXT_OVERFLOW_WRAP;
        settings.vertical_overflow = TEXT_OVERFLOW_ALLOW;
        settings.resize_text_max_size = 30;
    }
    let ghost fixed = *settings;
    assert(fixed == fixed_adjustments(*old(settings), force_wrap, path@));
    let font = find_font_override(font_overrides, path);
    if let Some(size) = font {
        settings.font_size = size;
    }
    let ghost fonted = *settings;
    assert(fonted == font_applied(fixed, font));
    let found = find_text_property_override(property_overrides, path);
    match found {
        Some(props) => {
            apply_text_property_overrides(settings, props);
            let new_source = match &props.text_override {
                Some(t) => {
                    let c = chars_of(t.as_str());
                    let has_template = chars_include(&c, '$');
                    Some(SourceText { text: t.clone(), has_template })
                },
                None => source,
            };
            let position_offset = position_offset_request(props);
            let plan = TextGenerationPlan { source: new_source, position_offset };
            assert(override_lookup(text_property_table(*property_overrides), path@, Some(*props)));
            plan
        },
        None => {
            assert(override_lookup(text_property_table(*property_overrides), path@, None::<TextPropertyOverrides>));
            TextGenerationPlan { source, position_offset: None }
        },
    }
}

/// What one text generation decides besides its settings: the plan, and whether
/// the properties of the path are dumped now.
#[derive(Debug)]
pub struct GenerationDecision {
    pub plan: TextGenerationPlan,
    pub dump_properties: bool,
}

/// The decisions of one text generation, in the hook's order: the replacement text
/// (from the hashed dictionary, else a template among the original texts); the
/// font size under the configured font scale (`scaled_font_size`, computed by the
/// caller in `f32`); wrapping forced for system text; the fixed and per-path
/// overrides of `plan_text_generation`; then the property dump, once per path and
/// only while text debugging and property dumps are both on.
pub fn decide_text_generation(
    settings: &mut TextGenerationSettings,
    hashed: Option<String>,
    has_localize_dicts: bool,
    original: &str,
    scaled_font_size: i32,
    components: &SystemTextComponents,
    system_query_active: bool,
    context_id: Option<i32>,
    this_id: Option<i32>,
    path: &str,
    font_overrides: &FnvHashMap<String, i32>,
    property_overrides: &FnvHashMap<String, TextPropertyOverrides>,
    dumped: &mut DumpedPaths,
    text_debug: bool,
    text_property_dump: bool,
) -> (r: GenerationDecision)
    ensures
        exists|source: Option<SourceText>|
            #![trigger source_selected(hashed, has_localize_dicts, original@, source)]
            source_selected(hashed, has_localize_dicts, original@, source) && planned(
                TextGenerationSettings { font_size: scaled_font_size, ..*old(settings) },
                *final(settings),
                source,
                forced_wrap(components.view(), system_query_active, context_id, this_id),
                path@,
                font_override_table(*font_overrides),
                text_property_table(*property_overrides),
                r.plan,
            ),
        r.dump_properties == (text_debug && text_property_dump && dump_decision(old(dumped).view(), path@).0),
        final(dumped).view() == if text_debug && text_property_dump {
            dump_decision(old(dumped).view(), path@).1
        } else {
            old(dumped).view()
        },
{
    let ghost hashed_in = hashed;
    let source = select_source_text(hashed, has_localize_dicts, original);
    assert(source_selected(hashed_in, has_localize_dicts, original@, source));
    settings.font_size = scaled_font_size;
    let force_wrap = components.should_force_wrap(system_query_active, context_id, this_id);
    let plan = plan_text_generation(settings, source, force_wrap, path, font_overrides, property_overrides);
    let dump_properties = if text_debug && text_property_dump {
        dumped.should_dump(path)
    } else {
        false
    };
    GenerationDecision { plan, dump_properties }
}

// ---------------------------------------------------------------------------
// Hierarchy paths
/// The path of an object in the scene hierarchy, from the names collected from the
/// object up to the root: `None` for a null object, `Unknown` when no name was
/// found, else the names from the root down, joined with `/`.
pub open spec fn hierarchy_path(names: Option<Seq<Seq<char>>>) -> Seq<char> {
    match names {
        None => "None"@,
        Some(n) => if n.len() == 0 {
            "Unknown"@
        } else {
            join_with(n.reverse(), '/')
        },
    }
}

/// The hierarchy path of an object, given the names collected from it up to the
/// root (`None` when the object is null).
pub fn get_hierarchy_path(names: Option<&Vec<String>>) -> (r: String)
    ensures
        r@ == hierarchy_path(
            match names {
                Some(n) => Some(n@.map_values(|s: String| s@)),
                None => None,
            },
        ),
{
    match names {
        None => "None".to_owned(),
        Some(n) => {
            if n.len() == 0 {
                return "Unknown".to_owned();
            }
            let ghost views = n@.map_values(|s: String| s@);
            let mut out: Vec<char> = Vec::new();
            let mut i: usize = n.len();
            let mut first = true;
            while i > 0
                invariant
                    i <= n.len(),
                    n.len() > 0,
                    views == n@.map_values(|s: String| s@),
                    first == (i == n.len()),
                    !first ==> out@ == join_with(views.reverse().take(n.len() - i), '/'),
                    first ==> out@ == Seq::<char>::empty(),
                decreases i,
            {
                i = i - 1;
                let part = chars_of(n[i].as_str());
                let ghost prev = out@;
                let ghost done = views.reverse().take(n.len() - i);
                assert(done.drop_last() =~= views.reverse().take(n.len() - i - 1));
                assert(done.last() == views[i as int]);
                if !first {
                    out.push('/');
                }
                let mut k: usize = 0;
                let ghost mid = out@;
                while k < part.len()
                    invariant
                        k <= part.len(),
                        out@ == mid + part@.take(k as int),
                    decreases part.len() - k,
                {
                    out.push(part[k]);
                    assert(part@.take(k + 1) =~= part@.take(k as int).push(part[k as int]));
                    k = k + 1;
                }
                assert(part@.take(part.len() as int) =~= part@);
                if first {
                    assert(done.len() == 1);
                    assert(out@ =~= done[0]);
                } else {
                    assert(out@ =~= prev.push('/') + done.last());
                }
                first = false;
            }
            assert(views.reverse().take(n.len() as int) =~= views.reverse());
            string_from_chars(&out)
        },
    }
}

/// The hierarchy path used for text overrides: that of the context object, unless
/// it is null or nameless, in which case that of the generator itself.
pub fn get_hierarchy_path_with_fallback(context: Option<&Vec<String>>, fallback: Option<&Vec<String>>) -> (r: String)
    ensures
        ({
            let c = hierarchy_path(match context {
                Some(n) => Some(n@.map_values(|s: String| s@)),
                None => None,
            });
            let f = hierarchy_path(match fallback {
                Some(n) => Some(n@.map_values(|s: String| s@)),
                None => None,
            });
            r@ == if c == "None"@ || c == "Unknown"@ { f } else { c }
        }),
{
    let path = get_hierarchy_path(context);
    let c = chars_of(path.as_str());
    if chars_are(&c, "None") || chars_are(&c, "Unknown") {
        get_hierarchy_path(fallback)
    } else {
        path
    }
}

// ---------------------------------------------------------------------------
// Position offsets
/// The sibling names of a `sibling_name` override: the pieces between commas,
/// trimmed, without the empty ones.
pub open spec fn trimmed_nonempty(pieces: Seq<Seq<char>>) -> Seq<Seq<char>>
    decreases pieces.len(),
{
    if pieces.len() == 0 {
        Seq::empty()
    } else {
        let rest = trimmed_nonempty(pieces.drop_last());
        let t = trim(pieces.last());
        if t.len() > 0 {
            rest.push(t)
        } else {
            rest
        }
    }
}

/// The names listed in a comma separated `sibling_name`, as the offset is applied
/// to each: split at commas, trimmed, empty names left out.
pub open spec fn sibling_names(s: Seq<char>) -> Seq<Seq<char>> {
    trimmed_nonempty(split_on(s, ','))
}

/// The names in a comma separated list of siblings, in order.
pub fn split_sibling_names(s: &str) -> (r: Vec<String>)
    ensures
        r@.map_values(|n: String| n@) == sibling_names(s@),
{
    let c = chars_of(s);
    let pieces = split_chars(&c, ',');
    let ghost piece_views = pieces@.map_values(|p: Vec<char>| p@);
    let mut out: Vec<String> = Vec::new();
    let mut i: usize = 0;
    while i < pieces.len()
        invariant
            i <= pieces.len(),
            piece_views == pieces@.map_values(|p: Vec<char>| p@),
            piece_views == split_on(c@, ','),
            out@.map_values(|n: String| n@) == trimmed_nonempty(piece_views.take(i as int)),
        decreases pieces.len() - i,
    {
        assert(piece_views.take(i + 1).drop_last() =~= piece_views.take(i as int));
        let t = trim_chars(&pieces[i]);
        if t.len() > 0 {
            let ghost before = out@.map_values(|n: String| n@);
            let name = string_from_chars(&t);
            out.push(name);
            assert(out@.map_values(|n: String| n@) =~= before.push(t@));
        }
        i = i + 1;
    }
    assert(piece_views.take(pieces.len() as int) =~= piece_views);
    out
}

/// No sibling name is empty.
pub proof fn lemma_sibling_names_trimmed(pieces: Seq<Seq<char>>)
    ensures
        forall|i: int|
            0 <= i < trimmed_nonempty(pieces).len() ==> #[trigger] trimmed_nonempty(pieces)[i].len() > 0,
    decreases pieces.len(),
{
    if pieces.len() > 0 {
        lemma_sibling_names_trimmed(pieces.drop_last());
        let rest = trimmed_nonempty(pieces.drop_last());
        let t = trim(pieces.last());
        if t.len() > 0 {
            assert(trimmed_nonempty(pieces) == rest.push(t));
        } else {
            assert(trimmed_nonempty(pieces) == rest);
        }
    }
}

/// The entry is a name, and that name is `target`.
pub open spec fn name_is(entry: Option<String>, target: Seq<char>) -> bool {
    entry matches Some(n) && n@ == target
}

/// The first child whose name is `target`, among the children's names in order
/// (`None` for a child or a name that is null).
pub fn find_child_by_name(names: &Vec<Option<String>>, target: &str) -> (r: Option<usize>)
    ensures
        match r {
            Some(i) => {
                &&& i < names.len()
                &&& name_is(names@[i as int], target@)
                &&& forall|j: int| 0 <= j < i ==> !name_is(#[trigger] names@[j], target@)
            },
            None => forall|j: int| 0 <= j < names.len() ==> !name_is(#[trigger] names@[j], target@),
        },
{
    let t = chars_of(target);
    let mut i: usize = 0;
    while i < names.len()
        invariant
            i <= names.len(),
            t@ == target@,
            forall|j: int| 0 <= j < i ==> !name_is(#[trigger] names@[j], target@),
        decreases names.len() - i,
    {
        if let Some(n) = &names[i] {
            let c = chars_of(n.as_str());
            if crate::text::chars_equal(&c, &t) {
                return Some(i);
            }
        }
        i = i + 1;
    }
    None
}

/// Whether an `f32` given by its bits differs from zero (`+0.0` and `-0.0` are the
/// two patterns equal to zero; NaN differs from it).
pub open spec fn f32_bits_nonzero(b: u32) -> bool {
    b != 0 && b != 0x8000_0000
}

/// A position offset waiting to be applied once generation is over. `transform`
/// is the address of the `RectTransform` it moves; `f32` values as bit patterns.
#[derive(Debug)]
pub struct PendingOffset {
    pub transform: usize,
    pub offset_x: u32,
    pub offset_y: u32,
    pub sibling_name: Option<String>,
    pub sibling_offset_x: u32,
    pub sibling_offset_y: u32,
}

/// What happens to one pending offset when the queue is drained.
#[derive(Debug, PartialEq, Eq, Structural)]
pub enum OffsetAction {
    /// Its transform is null: nothing.
    Skip,
    /// Its transform is dead: its recorded position is forgotten.
    ForgetDead,
    /// Otherwise: the named siblings move, and the transform itself moves when its
    /// own offset is not zero.
    Apply { move_siblings: bool, move_self: bool },
}

/// The action for a pending offset, given whether its transform is still alive.
pub fn pending_offset_action(p: &PendingOffset, alive: bool) -> (r: OffsetAction)
    ensures
        r == if p.transform == 0 {
            OffsetAction::Skip
        } else if !alive {
            OffsetAction::ForgetDead
        } else {
            OffsetAction::Apply {
                move_siblings: p.sibling_name is Some,
                move_self: f32_bits_nonzero(p.offset_x) || f32_bits_nonzero(p.offset_y),
            }
        },
{
    if p.transform == 0 {
        return OffsetAction::Skip;
    }
    if !alive {
        return OffsetAction::ForgetDead;
    }
    let nonzero_x = p.offset_x != 0 && p.offset_x != 0x8000_0000;
    let nonzero_y = p.offset_y != 0 && p.offset_y != 0x8000_0000;
    OffsetAction::Apply { move_siblings: p.sibling_name.is_some(), move_self: nonzero_x || nonzero_y }
}

/// The offsets queued by text generation, applied in the order they were queued.
pub struct PendingOffsets {
    items: Vec<PendingOffset>,
}

impl PendingOffsets {
    /// The offsets waiting, oldest first.
    pub closed spec fn view(&self) -> Seq<PendingOffset> {
        self.items@
    }

    /// No offset waiting.
    pub fn new() -> (r: Self)
        ensures
            r.view() == Seq::<PendingOffset>::empty(),
    {
        PendingOffsets { items: Vec::new() }
    }

    /// Queues an offset behind those already waiting.
    pub fn push(&mut self, p: PendingOffset)
        ensures
            final(self).view() == old(self).view().push(p),
    {
        self.items.push(p);
    }

    /// Whether nothing is waiting.
    pub fn is_empty(&self) -> (r: bool)
        ensures
            r == (self.view().len() == 0),
    {
        self.items.len() == 0
    }
}

/// Takes every waiting offset, oldest first, and leaves the queue empty.
pub fn drain_pending_offsets(queue: &mut PendingOffsets) -> (r: Vec<PendingOffset>)
    ensures
        r@ == old(queue).view(),
        final(queue).view() == Seq::<PendingOffset>::empty(),
{
    let mut taken: Vec<PendingOffset> = Vec::new();
    std::mem::swap(&mut taken, &mut queue.items);
    taken
}

/// The queue is first in, first out: queueing `a` then `b` behind the waiting
/// offsets `q` leaves `q`, then `a`, then `b` waiting, which is what a drain gives
/// back (see `push` and `drain_pending_offsets`).
pub proof fn lemma_queue_order(q: Seq<PendingOffset>, a: PendingOffset, b: PendingOffset)
    ensures
        q.push(a).push(b) == q + seq![a, b],
        q.push(a).push(b)[q.len() as int] == a,
        q.push(a).push(b)[q.len() + 1int] == b,
{
    assert(q.push(a).push(b) =~= q + seq![a, b]);
}

// ---------------------------------------------------------------------------
// Hook installation
/// The hook of this module: `UnityEngine.TextGenerator::PopulateWithErrors`, which
/// takes three parameters.
pub fn init() -> (r: HookPlan)
    ensures
        r.namespace@ == "UnityEngine"@,
        r.class_name@ == "TextGenerator"@,
        r.hooks@.len() == 1,
        r.hooks@[0].method@ == "PopulateWithErrors"@,
        r.hooks@[0].arg_count == 3,
{
    let mut hooks: Vec<MethodHook> = Vec::new();
    hooks.push(MethodHook { method: "PopulateWithErrors", arg_count: 3 });
    HookPlan { namespace: "UnityEngine", class_name: "TextGenerator", hooks }
}

/// `s` with line feeds and carriage returns written as `\n` and `\r`, as the
/// generation log shows an original text.
pub fn escape_line_breaks(s: &str) -> (r: String)
    ensures
        r@ == escaped(s@, true),
{
    let c = chars_of(s);
    let e = escape_chars(&c, true);
    string_from_chars(&e)
}


// ---------------------------------------------------------------------------
// Laws of overrides and filters, stated setting by setting
/// A key that is not the path itself is used only as a `/suffix` pattern that the
/// path ends with: a key `'/'` followed by `suffix` matches exactly the paths made
/// of some prefix followed by `suffix`, and a key that does not start with `'/'`
/// matches no path.
pub proof fn lemma_pattern_is_a_suffix(suffix: Seq<char>, path: Seq<char>, key: Seq<char>)
    ensures
        matches_path_pattern(seq!['/'] + suffix, path) <==> exists|prefix: Seq<char>| path == prefix + suffix,
        (key.len() == 0 || key[0] != '/') ==> !matches_path_pattern(key, path),
{
    let key2 = seq!['/'] + suffix;
    assert(key2.drop_first() =~= suffix);
    if matches_path_pattern(key2, path) {
        let prefix = path.subrange(0, path.len() - suffix.len());
        assert(path =~= prefix + suffix);
    }
    if exists|prefix: Seq<char>| path == prefix + suffix {
        let prefix = choose|prefix: Seq<char>| path == prefix + suffix;
        assert(path.subrange(path.len() - suffix.len(), path.len() as int) =~= suffix);
    }
}

/// What a lookup gives: the entry of the path itself when there is one; otherwise
/// only the entry of a key `'/'` followed by a suffix of the path, and nothing when
/// no such key is in the table.
pub proof fn lemma_lookup_by_suffix_only<V>(table: Map<Seq<char>, V>, path: Seq<char>, r: Option<V>)
    requires
        override_lookup(table, path, r),
    ensures
        table.contains_key(path) ==> r == Some(table[path]),
        !table.contains_key(path) && r is Some ==> exists|suffix: Seq<char>, prefix: Seq<char>|
            #![trigger table.contains_key(seq!['/'] + suffix), prefix + suffix]
            table.contains_key(seq!['/'] + suffix) && path == prefix + suffix && r == Some(
                table[seq!['/'] + suffix],
            ),
        r is None ==> !table.contains_key(path) && forall|suffix: Seq<char>, prefix: Seq<char>|
            #![trigger table.contains_key(seq!['/'] + suffix), prefix + suffix]
            path == prefix + suffix ==> !table.contains_key(seq!['/'] + suffix),
{
    if !table.contains_key(path) && r is Some {
        let k = choose|k: Seq<char>|
            table.contains_key(k) && #[trigger] matches_path_pattern(k, path) && r == Some(table[k]);
        let suffix = k.drop_first();
        assert(k =~= seq!['/'] + suffix);
        lemma_pattern_is_a_suffix(suffix, path, k);
        let prefix = choose|prefix: Seq<char>| path == prefix + suffix;
        assert(table.contains_key(seq!['/'] + suffix) && path == prefix + suffix);
    }
    if r is None {
        assert forall|suffix: Seq<char>, prefix: Seq<char>|
            #![trigger table.contains_key(seq!['/'] + suffix), prefix + suffix]
            path == prefix + suffix implies !table.contains_key(seq!['/'] + suffix) by {
            lemma_pattern_is_a_suffix(suffix, path, seq!['/'] + suffix);
            if table.contains_key(seq!['/'] + suffix) {
                assert(matches_path_pattern(seq!['/'] + suffix, path));
            }
        }
    }
}

/// Each override sets its own setting: a field that holds a value gives the setting
/// it names that value, and a setting whose override is absent keeps its value.
pub proof fn lemma_each_override_sets_its_own_setting(s: TextGenerationSettings, p: TextPropertyOverrides)
    ensures
        match p.font_size {
            Some(v) => properties_applied(s, p).font_size == v,
            None => properties_applied(s, p).font_size == s.font_size,
        },
        match p.line_spacing {
            Some(v) => properties_applied(s, p).line_spacing == v,
            None => properties_applied(s, p).line_spacing == s.line_spacing,
        },
        match p.horizontal_overflow {
            Some(v) => properties_applied(s, p).horizontal_overflow == v,
            None => properties_applied(s, p).horizontal_overflow == s.horizontal_overflow,
        },
        match p.vertical_overflow {
            Some(v) => properties_applied(s, p).vertical_overflow == v,
            None => properties_applied(s, p).vertical_overflow == s.vertical_overflow,
        },
        match p.best_fit {
            Some(v) => properties_applied(s, p).resize_text_for_best_fit == v,
            None => properties_applied(s, p).resize_text_for_best_fit == s.resize_text_for_best_fit,
        },
        match p.min_size {
            Some(v) => properties_applied(s, p).resize_text_min_size == v,
            None => properties_applied(s, p).resize_text_min_size == s.resize_text_min_size,
        },
        match p.max_size {
            Some(v) => properties_applied(s, p).resize_text_max_size == v,
            None => properties_applied(s, p).resize_text_max_size == s.resize_text_max_size,
        },
        match p.update_bounds {
            Some(v) => properties_applied(s, p).update_bounds == v,
            None => properties_applied(s, p).update_bounds == s.update_bounds,
        },
        match p.generate_out_of_bounds {
            Some(v) => properties_applied(s, p).generate_out_of_bounds == v,
            None => properties_applied(s, p).generate_out_of_bounds == s.generate_out_of_bounds,
        },
        match p.align_by_geometry {
            Some(v) => properties_applied(s, p).align_by_geometry == v,
            None => properties_applied(s, p).align_by_geometry == s.align_by_geometry,
        },
        match p.extents_x {
            Some(v) => properties_applied(s, p).generation_extents_x == v,
            None => properties_applied(s, p).generation_extents_x == s.generation_extents_x,
        },
        match p.extents_y {
            Some(v) => properties_applied(s, p).generation_extents_y == v,
            None => properties_applied(s, p).generation_extents_y == s.generation_extents_y,
        },
        match p.rich_text {
            Some(v) => properties_applied(s, p).rich_text == v,
            None => properties_applied(s, p).rich_text == s.rich_text,
        },
        match p.scale_factor {
            Some(v) => properties_applied(s, p).scale_factor == v,
            None => properties_applied(s, p).scale_factor == s.scale_factor,
        },
        match p.font_style {
            Some(v) => properties_applied(s, p).font_style == v,
            None => properties_applied(s, p).font_style == s.font_style,
        },
        match p.text_anchor {
            Some(v) => properties_applied(s, p).text_anchor == v,
            None => properties_applied(s, p).text_anchor == s.text_anchor,
        },
        match p.pivot_x {
            Some(v) => properties_applied(s, p).pivot_x == v,
            None => properties_applied(s, p).pivot_x == s.pivot_x,
        },
        match p.pivot_y {
            Some(v) => properties_applied(s, p).pivot_y == v,
            None => properties_applied(s, p).pivot_y == s.pivot_y,
        },
{
}

/// Each filter sets only its own settings, to the value it carries; `scale` and
/// `ls` leave every setting held here as it is.
pub proof fn lemma_each_filter_sets_its_own_settings(s: TextGenerationSettings, f: TextFilter)
    ensures
        match f {
            TextFilter::NoBreak => {
                &&& filter_applied(s, f).font_size == s.font_size
                &&& filter_applied(s, f).line_spacing == s.line_spacing
                &&& filter_applied(s, f).horizontal_overflow == TEXT_OVERFLOW_ALLOW
                &&& filter_applied(s, f).vertical_overflow == s.vertical_overflow
                &&& filter_applied(s, f).resize_text_for_best_fit == s.resize_text_for_best_fit
                &&& filter_applied(s, f).resize_text_min_size == s.resize_text_min_size
                &&& filter_applied(s, f).resize_text_max_size == s.resize_text_max_size
                &&& filter_applied(s, f).update_bounds == s.update_bounds
                &&& filter_applied(s, f).generate_out_of_bounds == true
                &&& filter_applied(s, f).align_by_geometry == s.align_by_geometry
                &&& filter_applied(s, f).generation_extents_x == s.generation_extents_x
                &&& filter_applied(s, f).generation_extents_y == s.generation_extents_y
                &&& filter_applied(s, f).rich_text == s.rich_text
                &&& filter_applied(s, f).scale_factor == s.scale_factor
                &&& filter_applied(s, f).font_style == s.font_style
                &&& filter_applied(s, f).text_anchor == s.text_anchor
                &&& filter_applied(s, f).pivot_x == s.pivot_x
                &&& filter_applied(s, f).pivot_y == s.pivot_y
            },
            TextFilter::Anchor(a) => {
                &&& filter_applied(s, f).font_size == s.font_size
                &&& filter_applied(s, f).line_spacing == s.line_spacing
                &&& filter_applied(s, f).horizontal_overflow == s.horizontal_overflow
                &&& filter_applied(s, f).vertical_overflow == s.vertical_overflow
                &&& filter_applied(s, f).resize_text_for_best_fit == s.resize_text_for_best_fit
                &&& filter_applied(s, f).resize_text_min_size == s.resize_text_min_size
                &&& filter_applied(s, f).resize_text_max_size == s.resize_text_max_size
                &&& filter_applied(s, f).update_bounds == s.update_bounds
                &&& filter_applied(s, f).generate_out_of_bounds == s.generate_out_of_bounds
                &&& filter_applied(s, f).align_by_geometry == s.align_by_geometry
                &&& filter_applied(s, f).generation_extents_x == s.generation_extents_x
                &&& filter_applied(s, f).generation_extents_y == s.generation_extents_y
                &&& filter_applied(s, f).rich_text == s.rich_text
                &&& filter_applied(s, f).scale_factor == s.scale_factor
                &&& filter_applied(s, f).font_style == s.font_style
                &&& filter_applied(s, f).text_anchor == a
                &&& filter_applied(s, f).pivot_x == s.pivot_x
                &&& filter_applied(s, f).pivot_y == s.pivot_y
            },
            TextFilter::Scale(_) => {
                &&& filter_applied(s, f).font_size == s.font_size
                &&& filter_applied(s, f).line_spacing == s.line_spacing
                &&& filter_applied(s, f).horizontal_overflow == s.horizontal_overflow
                &&& filter_applied(s, f).vertical_overflow == s.vertical_overflow
                &&& filter_applied(s, f).resize_text_for_best_fit == s.resize_text_for_best_fit
                &&& filter_applied(s, f).resize_text_min_size == s.resize_text_min_size
                &&& filter_applied(s, f).resize_text_max_size == s.resize_text_max_size
                &&& filter_applied(s, f).update_bounds == s.update_bounds
                &&& filter_applied(s, f).generate_out_of_bounds == s.generate_out_of_bounds
                &&& filter_applied(s, f).align_by_geometry == s.align_by_geometry
                &&& filter_applied(s, f).generation_extents_x == s.generation_extents_x
                &&& filter_applied(s, f).generation_extents_y == s.generation_extents_y
                &&& filter_applied(s, f).rich_text == s.rich_text
                &&& filter_applied(s, f).scale_factor == s.scale_factor
                &&& filter_applied(s, f).font_style == s.font_style
                &&& filter_applied(s, f).text_anchor == s.text_anchor
                &&& filter_applied(s, f).pivot_x == s.pivot_x
                &&& filter_applied(s, f).pivot_y == s.pivot_y
            },
            TextFilter::HorizontalOverflow(o) => {
                &&& filter_applied(s, f).font_size == s.font_size
                &&& filter_applied(s, f).line_spacing == s.line_spacing
                &&& filter_applied(s, f).horizontal_overflow == o
                &&& filter_applied(s, f).vertical_overflow == s.vertical_overflow
                &&& filter_applied(s, f).resize_text_for_best_fit == s.resize_text_for_best_fit
                &&& filter_applied(s, f).resize_text_min_size == s.resize_text_min_size
                &&& filter_applied(s, f).resize_text_max_size == s.resize_text_max_size
                &&& filter_applied(s, f).update_bounds == s.update_bounds
                &&& filter_applied(s, f).generate_out_of_bounds == s.generate_out_of_bounds
                &&& filter_applied(s, f).align_by_geometry == s.align_by_geometry
                &&& filter_applied(s, f).generation_extents_x == s.generation_extents_x
                &&& filter_applied(s, f).generation_extents_y == s.generation_extents_y
                &&& filter_applied(s, f).rich_text == s.rich_text
                &&& filter_applied(s, f).scale_factor == s.scale_factor
                &&& filter_applied(s, f).font_style == s.font_style
                &&& filter_applied(s, f).text_anchor == s.text_anchor
                &&& filter_applied(s, f).pivot_x == s.pivot_x
                &&& filter_applied(s, f).pivot_y == s.pivot_y
            },
            TextFilter::VerticalOverflow(o) => {
                &&& filter_applied(s, f).font_size == s.font_size
                &&& filter_applied(s, f).line_spacing == s.line_spacing
                &&& filter_applied(s, f).horizontal_overflow == s.horizontal_overflow
                &&& filter_applied(s, f).vertical_overflow == o
                &&& filter_applied(s, f).resize_text_for_best_fit == s.resize_text_for_best_fit
                &&& filter_applied(s, f).resize_text_min_size == s.resize_text_min_size
                &&& filter_applied(s, f).resize_text_max_size == s.resize_text_max_size
                &&& filter_applied(s, f).update_bounds == s.update_bounds
                &&& filter_applied(s, f).generate_out_of_bounds == s.generate_out_of_bounds
                &&& filter_applied(s, f).align_by_geometry == s.align_by_geometry
                &&& filter_applied(s, f).generation_extents_x == s.generation_extents_x
                &&& filter_applied(s, f).generation_extents_y == s.generation_extents_y
                &&& filter_applied(s, f).rich_text == s.rich_text
                &&& filter_applied(s, f).scale_factor == s.scale_factor
                &&& filter_applied(s, f).font_style == s.font_style
                &&& filter_applied(s, f).text_anchor == s.text_anchor
                &&& filter_applied(s, f).pivot_x == s.pivot_x
                &&& filter_applied(s, f).pivot_y == s.pivot_y
            },
            TextFilter::LineSpacing(_) => {
                &&& filter_applied(s, f).font_size == s.font_size
                &&& filter_applied(s, f).line_spacing == s.line_spacing
                &&& filter_applied(s, f).horizontal_overflow == s.horizontal_overflow
                &&& filter_applied(s, f).vertical_overflow == s.vertical_overflow
                &&& filter_applied(s, f).resize_text_for_best_fit == s.resize_text_for_best_fit
                &&& filter_applied(s, f).resize_text_min_size == s.resize_text_min_size
                &&& filter_applied(s, f).resize_text_max_size == s.resize_text_max_size
                &&& filter_applied(s, f).update_bounds == s.update_bounds
                &&& filter_applied(s, f).generate_out_of_bounds == s.generate_out_of_bounds
                &&& filter_applied(s, f).align_by_geometry == s.align_by_geometry
                &&& filter_applied(s, f).generation_extents_x == s.generation_extents_x
                &&& filter_applied(s, f).generation_extents_y == s.generation_extents_y
                &&& filter_applied(s, f).rich_text == s.rich_text
                &&& filter_applied(s, f).scale_factor == s.scale_factor
                &&& filter_applied(s, f).font_style == s.font_style
                &&& filter_applied(s, f).text_anchor == s.text_anchor
                &&& filter_applied(s, f).pivot_x == s.pivot_x
                &&& filter_applied(s, f).pivot_y == s.pivot_y
            },
            TextFilter::UpdateBounds => {
                &&& filter_applied(s, f).font_size == s.font_size
                &&& filter_applied(s, f).line_spacing == s.line_spacing
                &&& filter_applied(s, f).horizontal_overflow == s.horizontal_overflow
                &&& filter_applied(s, f).vertical_overflow == s.vertical_overflow
                &&& filter_applied(s, f).resize_text_for_best_fit == s.resize_text_for_best_fit
                &&& filter_applied(s, f).resize_text_min_size == s.resize_text_min_size
                &&& filter_applied(s, f).resize_text_max_size == s.resize_text_max_size
                &&& filter_applied(s, f).update_bounds == true
                &&& filter_applied(s, f).generate_out_of_bounds == s.generate_out_of_bounds
                &&& filter_applied(s, f).align_by_geometry == s.align_by_geometry
                &&& filter_applied(s, f).generation_extents_x == s.generation_extents_x
                &&& filter_applied(s, f).generation_extents_y == s.generation_extents_y
                &&& filter_applied(s, f).rich_text == s.rich_text
                &&& filter_applied(s, f).scale_factor == s.scale_factor
                &&& filter_applied(s, f).font_style == s.font_style
                &&& filter_applied(s, f).text_anchor == s.text_anchor
                &&& filter_applied(s, f).pivot_x == s.pivot_x
                &&& filter_applied(s, f).pivot_y == s.pivot_y
            },
            TextFilter::BestFit => {
                &&& filter_applied(s, f).font_size == s.font_size
                &&& filter_applied(s, f).line_spacing == s.line_spacing
                &&& filter_applied(s, f).horizontal_overflow == s.horizontal_overflow
                &&& filter_applied(s, f).vertical_overflow == s.vertical_overflow
                &&& filter_applied(s, f).resize_text_for_best_fit == true
                &&& filter_applied(s, f).resize_text_min_size == s.resize_text_min_size
                &&& filter_applied(s, f).resize_text_max_size == s.resize_text_max_size
                &&& filter_applied(s, f).update_bounds == s.update_bounds
                &&& filter_applied(s, f).generate_out_of_bounds == s.generate_out_of_bounds
                &&& filter_applied(s, f).align_by_geometry == s.align_by_geometry
                &&& filter_applied(s, f).generation_extents_x == s.generation_extents_x
                &&& filter_applied(s, f).generation_extents_y == s.generation_extents_y
                &&& filter_applied(s, f).rich_text == s.rich_text
                &&& filter_applied(s, f).scale_factor == s.scale_factor
                &&& filter_applied(s, f).font_style == s.font_style
                &&& filter_applied(s, f).text_anchor == s.text_anchor
                &&& filter_applied(s, f).pivot_x == s.pivot_x
                &&& filter_applied(s, f).pivot_y == s.pivot_y
            },
            TextFilter::MinSize(m) => {
                &&& filter_applied(s, f).font_size == s.font_size
                &&& filter_applied(s, f).line_spacing == s.line_spacing
                &&& filter_applied(s, f).horizontal_overflow == s.horizontal_overflow
                &&& filter_applied(s, f).vertical_overflow == s.vertical_overflow
                &&& filter_applied(s, f).resize_text_for_best_fit == s.resize_text_for_best_fit
                &&& filter_applied(s, f).resize_text_min_size == m
                &&& filter_applied(s, f).resize_text_max_size == s.resize_text_max_size
                &&& filter_applied(s, f).update_bounds == s.update_bounds
                &&& filter_applied(s, f).generate_out_of_bounds == s.generate_out_of_bounds
                &&& filter_applied(s, f).align_by_geometry == s.align_by_geometry
                &&& filter_applied(s, f).generation_extents_x == s.generation_extents_x
                &&& filter_applied(s, f).generation_extents_y == s.generation_extents_y
                &&& filter_applied(s, f).rich_text == s.rich_text
                &&& filter_applied(s, f).scale_factor == s.scale_factor
                &&& filter_applied(s, f).font_style == s.font_style
                &&& filter_applied(s, f).text_anchor == s.text_anchor
                &&& filter_applied(s, f).pivot_x == s.pivot_x
                &&& filter_applied(s, f).pivot_y == s.pivot_y
            },
            TextFilter::MaxSize(m) => {
                &&& filter_applied(s, f).font_size == s.font_size
                &&& filter_applied(s, f).line_spacing == s.line_spacing
                &&& filter_applied(s, f).horizontal_overflow == s.horizontal_overflow
                &&& filter_applied(s, f).vertical_overflow == s.vertical_overflow
                &&& filter_applied(s, f).resize_text_for_best_fit == s.resize_text_for_best_fit
                &&& filter_applied(s, f).resize_text_min_size == s.resize_text_min_size
                &&& filter_applied(s, f).resize_text_max_size == m
                &&& filter_applied(s, f).update_bounds == s.update_bounds
                &&& filter_applied(s, f).generate_out_of_bounds == s.generate_out_of_bounds
                &&& filter_applied(s, f).align_by_geometry == s.align_by_geometry
                &&& filter_applied(s, f).generation_extents_x == s.generation_extents_x
                &&& filter_applied(s, f).generation_extents_y == s.generation_extents_y
                &&& filter_applied(s, f).rich_text == s.rich_text
                &&& filter_applied(s, f).scale_factor == s.scale_factor
                &&& filter_applied(s, f).font_style == s.font_style
                &&& filter_applied(s, f).text_anchor == s.text_anchor
                &&& filter_applied(s, f).pivot_x == s.pivot_x
                &&& filter_applied(s, f).pivot_y == s.pivot_y
            },
            TextFilter::OutOfBounds => {
                &&& filter_applied(s, f).font_size == s.font_size
                &&& filter_applied(s, f).line_spacing == s.line_spacing
                &&& filter_applied(s, f).horizontal_overflow == s.horizontal_overflow
                &&& filter_applied(s, f).vertical_overflow == s.vertical_overflow
                &&& filter_applied(s, f).resize_text_for_best_fit == s.resize_text_for_best_fit
                &&& filter_applied(s, f).resize_text_min_size == s.resize_text_min_size
                &&& filter_applied(s, f).resize_text_max_size == s.resize_text_max_size
                &&& filter_applied(s, f).update_bounds == s.update_bounds
                &&& filter_applied(s, f).generate_out_of_bounds == true
                &&& filter_applied(s, f).align_by_geometry == s.align_by_geometry
                &&& filter_applied(s, f).generation_extents_x == s.generation_extents_x
                &&& filter_applied(s, f).generation_extents_y == s.generation_extents_y
                &&& filter_applied(s, f).rich_text == s.rich_text
                &&& filter_applied(s, f).scale_factor == s.scale_factor
                &&& filter_applied(s, f).font_style == s.font_style
                &&& filter_applied(s, f).text_anchor == s.text_anchor
                &&& filter_applied(s, f).pivot_x == s.pivot_x
                &&& filter_applied(s, f).pivot_y == s.pivot_y
            },
        },
{
}


/// The filter that each name stands for, with its argument: `anchor` takes 1 to 9
/// and gives the anchor one less, `ho` and `vo` take 0 or 1 for the overflow they
/// name, `min` and `max` the size they name, `scale` and `ls` carry their literal;
/// `nb`, `ub`, `bf`, `bestfit` and `oob` take any argument; a filter that needs a
/// number gets none without one.
pub proof fn lemma_filter_names(a: FilterArg)
    ensures
        text_filter_spec("nb"@, a) == Some(TextFilter::NoBreak),
        text_filter_spec("anchor"@, a) == match a {
            FilterArg::Number(n, _) => if 1 <= n <= 9 { Some(TextFilter::Anchor((n - 1) as i32)) } else { None },
            _ => None,
        },
        text_filter_spec("scale"@, a) == match a {
            FilterArg::Number(_, b) => Some(TextFilter::Scale(b)),
            _ => None,
        },
        text_filter_spec("ho"@, a) == match a {
            FilterArg::Number(n, _) => if n == 0 || n == 1 { Some(TextFilter::HorizontalOverflow(n)) } else { None },
            _ => None,
        },
        text_filter_spec("vo"@, a) == match a {
            FilterArg::Number(n, _) => if n == 0 || n == 1 { Some(TextFilter::VerticalOverflow(n)) } else { None },
            _ => None,
        },
        text_filter_spec("ls"@, a) == match a {
            FilterArg::Number(_, b) => Some(TextFilter::LineSpacing(b)),
            _ => None,
        },
        text_filter_spec("ub"@, a) == Some(TextFilter::UpdateBounds),
        text_filter_spec("bf"@, a) == Some(TextFilter::BestFit),
        text_filter_spec("bestfit"@, a) == Some(TextFilter::BestFit),
        text_filter_spec("min"@, a) == match a {
            FilterArg::Number(n, _) => Some(TextFilter::MinSize(n)),
            _ => None,
        },
        text_filter_spec("max"@, a) == match a {
            FilterArg::Number(n, _) => Some(TextFilter::MaxSize(n)),
            _ => None,
        },
        text_filter_spec("oob"@, a) == Some(TextFilter::OutOfBounds),
{
    reveal_strlit("nb");
    reveal_strlit("anchor");
    reveal_strlit("scale");
    reveal_strlit("ho");
    reveal_strlit("vo");
    reveal_strlit("ls");
    reveal_strlit("ub");
    reveal_strlit("bf");
    reveal_strlit("bestfit");
    reveal_strlit("min");
    reveal_strlit("max");
    reveal_strlit("oob");
    assert("anchor"@.len() != "nb"@.len());
    assert("scale"@.len() != "nb"@.len());
    assert("scale"@.len() != "anchor"@.len());
    assert("ho"@[0] != "nb"@[0]);
    assert("ho"@.len() != "anchor"@.len());
    assert("ho"@.len() != "scale"@.len());
    assert("vo"@[0] != "nb"@[0]);
    assert("vo"@.len() != "anchor"@.len());
    assert("vo"@.len() != "scale"@.len());
    assert("vo"@[0] != "ho"@[0]);
    assert("ls"@[0] != "nb"@[0]);
    assert("ls"@.len() != "anchor"@.len());
    assert("ls"@.len() != "scale"@.len());
    assert("ls"@[0] != "ho"@[0]);
    assert("ls"@[0] != "vo"@[0]);
    assert("ub"@[0] != "nb"@[0]);
    assert("ub"@.len() != "anchor"@.len());
    assert("ub"@.len() != "scale"@.len());
    assert("ub"@[0] != "ho"@[0]);
    assert("ub"@[0] != "vo"@[0]);
    assert("ub"@[0] != "ls"@[0]);
    assert("bf"@[0] != "nb"@[0]);
    assert("bf"@.len() != "anchor"@.len());
    assert("bf"@.len() != "scale"@.len());
    assert("bf"@[0] != "ho"@[0]);
    assert("bf"@[0] != "vo"@[0]);
    assert("bf"@[0] != "ls"@[0]);
    assert("bf"@[0] != "ub"@[0]);
    assert("bestfit"@.len() != "nb"@.len());
    assert("bestfit"@.len() != "anchor"@.len());
    assert("bestfit"@.len() != "scale"@.len());
    assert("bestfit"@.len() != "ho"@.len());
    assert("bestfit"@.len() != "vo"@.len());
    assert("bestfit"@.len() != "ls"@.len());
    assert("bestfit"@.len() != "ub"@.len());
    assert("bestfit"@.len() != "bf"@.len());
    assert("min"@.len() != "nb"@.len());
    assert("min"@.len() != "anchor"@.len());
    assert("min"@.len() != "scale"@.len());
    assert("min"@.len() != "ho"@.len());
    assert("min"@.len() != "vo"@.len());
    assert("min"@.len() != "ls"@.len());
    assert("min"@.len() != "ub"@.len());
    assert("min"@.len() != "bf"@.len());
    assert("min"@.len() != "bestfit"@.len());
    assert("max"@.len() != "nb"@.len());
    assert("max"@.len() != "anchor"@.len());
    assert("max"@.len() != "scale"@.len());
    assert("max"@.len() != "ho"@.len());
    assert("max"@.len() != "vo"@.len());
    assert("max"@.len() != "ls"@.len());
    assert("max"@.len() != "ub"@.len());
    assert("max"@.len() != "bf"@.len());
    assert("max"@.len() != "bestfit"@.len());
    assert("max"@[1] != "min"@[1]);
    assert("oob"@.len() != "nb"@.len());
    assert("oob"@.len() != "anchor"@.len());
    assert("oob"@.len() != "scale"@.len());
    assert("oob"@.len() != "ho"@.len());
    assert("oob"@.len() != "vo"@.len());
    assert("oob"@.len() != "ls"@.len());
    assert("oob"@.len() != "ub"@.len());
    assert("oob"@.len() != "bf"@.len());
    assert("oob"@.len() != "bestfit"@.len());
    assert("oob"@[0] != "min"@[0]);
    assert("oob"@[0] != "max"@[0]);
}


/// The fixed layout: a character message box (a path holding `PartsCharaMessage`)
/// always wraps horizontally (0), lets text run past its bottom (1) and caps best
/// fit at 30; otherwise forced wrapping sets horizontal overflow to wrap (0); no
/// other setting changes.
pub proof fn lemma_fixed_layout(s: TextGenerationSettings, force_wrap: bool, path: Seq<char>)
    ensures
        ({
            let r = fixed_adjustments(s, force_wrap, path);
            &&& contains_infix(path, "PartsCharaMessage"@) ==> r.horizontal_overflow == 0
                && r.vertical_overflow == 1 && r.resize_text_max_size == 30
            &&& !contains_infix(path, "PartsCharaMessage"@) ==> r.vertical_overflow == s.vertical_overflow
                && r.resize_text_max_size == s.resize_text_max_size && r.horizontal_overflow == (
            if force_wrap {
                0
            } else {
                s.horizontal_overflow
            })
            &&& TextGenerationSettings {
                horizontal_overflow: s.horizontal_overflow,
                vertical_overflow: s.vertical_overflow,
                resize_text_max_size: s.resize_text_max_size,
                ..r
            } == s
        }),
{
}

/// The text property overrides come after the font size override: for a path that
/// is a key of both tables, the font size is the property override's when it has
/// one, else the font override's; and the text is replaced only by a text override.
pub proof fn lemma_properties_follow_font_override(
    before: TextGenerationSettings,
    after: TextGenerationSettings,
    source: Option<SourceText>,
    force_wrap: bool,
    path: Seq<char>,
    font_table: Map<Seq<char>, i32>,
    property_table: Map<Seq<char>, TextPropertyOverrides>,
    plan: TextGenerationPlan,
)
    requires
        planned(before, after, source, force_wrap, path, font_table, property_table, plan),
        font_table.contains_key(path),
        property_table.contains_key(path),
    ensures
        after.font_size == match property_table[path].font_size {
            Some(v) => v,
            None => font_table[path],
        },
        property_table[path].text_override is None ==> plan.source == source,
        property_table[path].text_override matches Some(t) ==> plan.source matches Some(st)
            && st.text@ == t@,
{
}

/// Wrapping is forced while a system text query runs; otherwise it is forced
/// exactly when the context object is registered, or, without a context, when the
/// generator itself is.
pub proof fn lemma_forced_wrap_cases(ids: Set<i32>, active: bool, context_id: Option<i32>, this_id: Option<i32>)
    ensures
        active ==> forced_wrap(ids, active, context_id, this_id),
        !active && context_id is Some ==> (forced_wrap(ids, active, context_id, this_id) <==> ids.contains(context_id->0)),
        !active && context_id is None && this_id is Some ==> (forced_wrap(ids, active, context_id, this_id) <==> ids.contains(this_id->0)),
        !active && context_id is None && this_id is None ==> !forced_wrap(ids, active, context_id, this_id),
{
}


/// Joining a piece in front: the piece, the separator, then the rest joined.
proof fn lemma_join_prepend(p: Seq<char>, xs: Seq<Seq<char>>, sep: char)
    requires
        xs.len() >= 1,
    ensures
        join_with(seq![p] + xs, sep) == p.push(sep) + join_with(xs, sep),
    decreases xs.len(),
{
    let all = seq![p] + xs;
    assert(all.drop_last() =~= seq![p] + xs.drop_last());
    assert(all.last() == xs.last());
    assert(all.len() >= 2);
    assert(join_with(all, sep) == join_with(all.drop_last(), sep).push(sep) + all.last());
    if xs.len() == 1 {
        assert(seq![p] + xs.drop_last() =~= seq![p]);
        assert(join_with(seq![p], sep) == p);
        assert(join_with(xs, sep) == xs[0]);
        assert(xs.last() == xs[0]);
    } else {
        lemma_join_prepend(p, xs.drop_last(), sep);
        let a = p.push(sep);
        let b = join_with(xs.drop_last(), sep);
        assert(join_with(xs, sep) == b.push(sep) + xs.last());
        assert((a + b).push(sep) + xs.last() =~= a + (b.push(sep) + xs.last()));
    }
}

/// A path lists the names from the root down, joined with `/`: adding the name of
/// one more ancestor (`parent`, nearer the root) to the collected names puts it in
/// front, followed by a `/`; a single name is the path itself; a null object is
/// `None` and an object with no name found is `Unknown`.
pub proof fn lemma_path_from_root_down(names: Seq<Seq<char>>, parent: Seq<char>, name: Seq<char>)
    ensures
        hierarchy_path(None) == "None"@,
        hierarchy_path(Some(Seq::empty())) == "Unknown"@,
        hierarchy_path(Some(seq![name])) == name,
        names.len() >= 1 ==> hierarchy_path(Some(names.push(parent))) == parent.push('/') + hierarchy_path(
            Some(names),
        ),
{
    assert(seq![name].reverse() =~= seq![name]);
    if names.len() >= 1 {
        assert(names.push(parent).reverse() =~= seq![parent] + names.reverse());
        lemma_join_prepend(parent, names.reverse(), '/');
    }
}

} // verus!
