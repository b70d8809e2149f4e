//! Gacha button text overrides: which override a button takes, which label shows
//! the override's text, and which other labels are blanked.
use vstd::prelude::*;
use crate::il2cpp::hook::hook_plan::{HookPlan, MethodHook};
use crate::il2cpp::hook::umamusume::ui_config::UITextConfig;

verus! {

/// The text overrides of the gacha buttons: by kind of draw (daily, free, paid)
/// and by number of draws.
#[derive(Debug, Default)]
pub struct GachaButtonsOverride {
    pub gacha_button_daily: Option<UITextConfig>,
    pub gacha_button_free: Option<UITextConfig>,
    pub gacha_button_paid: Option<UITextConfig>,
    pub gacha_button_10: Option<UITextConfig>,
    pub gacha_button_5: Option<UITextConfig>,
    pub gacha_button_3: Option<UITextConfig>,
    pub gacha_button_2: Option<UITextConfig>,
    pub gacha_button_1: Option<UITextConfig>,
}

/// The override a button takes: the daily one for a daily draw, else the free one
/// for a free draw, else the paid one for a paid draw (each only when configured),
/// else the one for its number of draws (1, 2, 3, 5 or 10).
pub open spec fn gacha_config_choice(
    is_daily: bool,
    is_free: bool,
    is_paid: bool,
    draw_count: i32,
    overrides: Option<GachaButtonsOverride>,
) -> Option<UITextConfig> {
    match overrides {
        None => None,
        Some(o) => if is_daily && o.gacha_button_daily is Some {
            o.gacha_button_daily
        } else if is_free && o.gacha_button_free is Some {
            o.gacha_button_free
        } else if is_paid && o.gacha_button_paid is Some {
            o.gacha_button_paid
        } else if draw_count == 10 {
            o.gacha_button_10
        } else if draw_count == 5 {
            o.gacha_button_5
        } else if draw_count == 3 {
            o.gacha_button_3
        } else if draw_count == 2 {
            o.gacha_button_2
        } else if draw_count == 1 {
            o.gacha_button_1
        } else {
            None
        },
    }
}

/// The override for a button of the given kind and number of draws.
pub fn select_gacha_button_config<'a>(
    is_daily: bool,
    is_free: bool,
    is_paid: bool,
    draw_count: i32,
    overrides: Option<&'a GachaButtonsOverride>,
) -> (r: Option<&'a UITextConfig>)
    ensures
        r is Some == gacha_config_choice(
            is_daily,
            is_free,
            is_paid,
            draw_count,
            match overrides {
                Some(o) => Some(*o),
                None => None,
            },
        ) is Some,
        r matches Some(c) ==> Some(*c) == gacha_config_choice(
            is_daily,
            is_free,
            is_paid,
            draw_count,
            match overrides {
                Some(o) => Some(*o),
                None => None,
            },
        ),
{
    match overrides {
        None => None,
        Some(o) => {
            if is_daily && o.gacha_button_daily.is_some() {
                o.gacha_button_daily.as_ref()
            } else if is_free && o.gacha_button_free.is_some() {
                o.gacha_button_free.as_ref()
            } else if is_paid && o.gacha_button_paid.is_some() {
                o.gacha_button_paid.as_ref()
            } else if draw_count == 10 {
                o.gacha_button_10.as_ref()
            } else if draw_count == 5 {
                o.gacha_button_5.as_ref()
            } else if draw_count == 3 {
                o.gacha_button_3.as_ref()
            } else if draw_count == 2 {
                o.gacha_button_2.as_ref()
            } else if draw_count == 1 {
                o.gacha_button_1.as_ref()
            } else {
                None
            }
        },
    }
}

/// A text label of a button: its address (0 for a null entry) and whether its game
/// object exists and is active.
#[derive(Clone, Copy, Debug, PartialEq, Eq, Structural)]
pub struct TextLabel {
    pub id: usize,
    pub active: bool,
}

/// A set of text labels of a button: its address (0 when null), whether its game
/// object exists and is active, and its labels (`None` when the array is null).
#[derive(Debug)]
pub struct TextSetSnapshot {
    pub id: usize,
    pub active: bool,
    pub labels: Option<Vec<TextLabel>>,
}

/// The first non-null label that is active, 0 if none is.
pub open spec fn first_active_label(labels: Seq<TextLabel>) -> usize
    decreases labels.len(),
{
    if labels.len() == 0 {
        0
    } else if labels[0].id != 0 && labels[0].active {
        labels[0].id
    } else {
        first_active_label(labels.drop_first())
    }
}

/// The first non-null label, 0 if none is.
pub open spec fn first_label(labels: Seq<TextLabel>) -> usize
    decreases labels.len(),
{
    if labels.len() == 0 {
        0
    } else if labels[0].id != 0 {
        labels[0].id
    } else {
        first_label(labels.drop_first())
    }
}

/// The labels of a set that is not null, as a sequence (empty when the array is null).
pub open spec fn set_labels(set: TextSetSnapshot) -> Seq<TextLabel> {
    match set.labels {
        Some(l) => l@,
        None => Seq::empty(),
    }
}

/// The label an active set offers: its first active label.
pub open spec fn active_pick(set: TextSetSnapshot) -> usize {
    if set.id != 0 && set.active {
        first_active_label(set_labels(set))
    } else {
        0
    }
}

/// The label any non-null set offers: its first non-null label.
pub open spec fn any_pick(set: TextSetSnapshot) -> usize {
    if set.id != 0 {
        first_label(set_labels(set))
    } else {
        0
    }
}

/// The label that shows the override's text, 0 if none is found. The sets are
/// searched daily set first for a daily draw, text set first otherwise: first for an
/// active label of an active set; then the draw count text is taken; then any
/// non-null label of a non-null set.
pub open spec fn main_label_spec(
    is_daily: bool,
    text_set: TextSetSnapshot,
    daily_set: TextSetSnapshot,
    draw_count_text: usize,
) -> usize {
    let (first, second) = if is_daily { (daily_set, text_set) } else { (text_set, daily_set) };
    let active = if active_pick(first) != 0 { active_pick(first) } else { active_pick(second) };
    if active != 0 {
        active
    } else if draw_count_text != 0 {
        draw_count_text
    } else if any_pick(first) != 0 {
        any_pick(first)
    } else {
        any_pick(second)
    }
}

/// The first label of `labels` that is non-null and, when `need_active`, active.
fn first_label_in(labels: &Vec<TextLabel>, need_active: bool) -> (r: usize)
    ensures
        r == if need_active {
            first_active_label(labels@)
        } else {
            first_label(labels@)
        },
{
    let mut i: usize = 0;
    assert(labels@.skip(0) =~= labels@);
    while i < labels.len()
        invariant
            i <= labels.len(),
            need_active ==> first_active_label(labels@) == first_active_label(labels@.skip(i as int)),
            !need_active ==> first_label(labels@) == first_label(labels@.skip(i as int)),
        decreases labels.len() - i,
    {
        let l = labels[i];
        assert(labels@.skip(i as int)[0] == l);
        if l.id != 0 && (!need_active || l.active) {
            return l.id;
        }
        assert(labels@.skip(i as int).drop_first() =~= labels@.skip(i + 1));
        i = i + 1;
    }
    0
}

/// The label a set offers: the first active one of an active set when
/// `need_active`, else the first non-null one of a non-null set.
fn pick_from_set(set: &TextSetSnapshot, need_active: bool) -> (r: usize)
    ensures
        r == if need_active {
            active_pick(*set)
        } else {
            any_pick(*set)
        },
{
    if set.id == 0 || (need_active && !set.active) {
        return 0;
    }
    match &set.labels {
        Some(l) => first_label_in(l, need_active),
        None => 0,
    }
}

/// The label that shows the override's text on a gacha button (0 when none).
pub fn find_main_label(
    is_daily: bool,
    text_set: &TextSetSnapshot,
    daily_set: &TextSetSnapshot,
    draw_count_text: usize,
) -> (r: usize)
    ensures
        r == main_label_spec(is_daily, *text_set, *daily_set, draw_count_text),
{
    let (first, second) = if is_daily { (daily_set, text_set) } else { (text_set, daily_set) };
    let mut main = pick_from_set(first, true);
    if main == 0 {
        main = pick_from_set(second, true);
    }
    if main == 0 && draw_count_text != 0 {
        main = draw_count_text;
    }
    if main == 0 {
        main = pick_from_set(first, false);
        if main == 0 {
            main = pick_from_set(second, false);
        }
    }
    main
}

/// The non-null labels of `labels` other than `keep`, in order.
pub open spec fn others(labels: Seq<TextLabel>, keep: usize) -> Seq<usize>
    decreases labels.len(),
{
    if labels.len() == 0 {
        Seq::empty()
    } else {
        let rest = others(labels.drop_last(), keep);
        let l = labels.last();
        if l.id != 0 && l.id != keep {
            rest.push(l.id)
        } else {
            rest
        }
    }
}

/// The labels blanked when the override's text goes to `keep`: every other
/// non-null label of the text set, then of the daily set.
pub open spec fn labels_to_blank(text_set: TextSetSnapshot, daily_set: TextSetSnapshot, keep: usize) -> Seq<usize> {
    (if text_set.id != 0 { others(set_labels(text_set), keep) } else { Seq::empty() }) + (if daily_set.id != 0 {
        others(set_labels(daily_set), keep)
    } else {
        Seq::empty()
    })
}

/// Appends to `out` the non-null labels of the set other than `keep`.
fn push_others(out: &mut Vec<usize>, set: &TextSetSnapshot, keep: usize)
    ensures
        final(out)@ == old(out)@ + if set.id != 0 {
            others(set_labels(*set), keep)
        } else {
            Seq::empty()
        },
{
    if set.id == 0 {
        assert(old(out)@ + Seq::<usize>::empty() =~= old(out)@);
        return;
    }
    match &set.labels {
        None => {
            assert(others(Seq::<TextLabel>::empty(), keep) == Seq::<usize>::empty());
            assert(old(out)@ + Seq::<usize>::empty() =~= old(out)@);
        },
        Some(l) => {
            let ghost start = out@;
            let mut i: usize = 0;
            while i < l.len()
                invariant
                    i <= l.len(),
                    out@ == start + others(l@.take(i as int), keep),
                decreases l.len() - i,
            {
                assert(l@.take(i + 1).drop_last() =~= l@.take(i as int));
                let x = l[i];
                if x.id != 0 && x.id != keep {
                    out.push(x.id);
                    assert(out@ =~= start + others(l@.take(i + 1), keep));
                }
                i = i + 1;
            }
            assert(l@.take(l.len() as int) =~= l@);
        },
    }
}

/// What an override does to a gacha button: the label that shows its text, the
/// text itself, the labels blanked, the font size of the label, and whether the
/// label sets are moved.
#[derive(Debug)]
pub struct GachaButtonPlan {
    pub main_label: usize,
    pub main_text: Option<String>,
    pub blanked_labels: Vec<usize>,
    pub font_size: Option<i32>,
    pub move_sets: bool,
}

/// The plan for an override on a gacha button. The text and the font size go to
/// the main label, and only when there is one; the other labels are blanked only
/// when a text is set; the sets move when either offset is given.
pub fn plan_gacha_button(
    config: &UITextConfig,
    is_daily: bool,
    text_set: &TextSetSnapshot,
    daily_set: &TextSetSnapshot,
    draw_count_text: usize,
) -> (r: GachaButtonPlan)
    ensures
        r.main_label == main_label_spec(is_daily, *text_set, *daily_set, draw_count_text),
        r.main_text == if r.main_label != 0 { config.text } else { None },
        r.blanked_labels@ == if r.main_label != 0 && config.text is Some {
            labels_to_blank(*text_set, *daily_set, r.main_label)
        } else {
            Seq::empty()
        },
        r.font_size == if r.main_label != 0 { config.font_size } else { None },
        r.move_sets == (config.position_offset_x is Some || config.position_offset_y is Some),
{
    let main = find_main_label(is_daily, text_set, daily_set, draw_count_text);
    let mut blanked: Vec<usize> = Vec::new();
    let mut main_text: Option<String> = None;
    let mut font_size: Option<i32> = None;
    if main != 0 {
        if let Some(t) = &config.text {
            main_text = Some(t.clone());
            push_others(&mut blanked, text_set, main);
            push_others(&mut blanked, daily_set, main);
            assert(blanked@ =~= labels_to_blank(*text_set, *daily_set, main));
        }
        font_size = config.font_size;
    }
    GachaButtonPlan {
        main_label: main,
        main_text,
        blanked_labels: blanked,
        font_size,
        move_sets: config.position_offset_x.is_some() || config.position_offset_y.is_some(),
    }
}

/// The label that keeps the text is never blanked.
pub proof fn lemma_main_label_not_blanked(labels: Seq<TextLabel>, keep: usize)
    ensures
        !others(labels, keep).contains(keep),
    decreases labels.len(),
{
    if labels.len() > 0 {
        lemma_main_label_not_blanked(labels.drop_last(), keep);
        let rest = others(labels.drop_last(), keep);
        let l = labels.last();
        if l.id != 0 && l.id != keep {
            assert forall|i: int| 0 <= i < rest.push(l.id).len() implies rest.push(l.id)[i] != keep by {
                if i < rest.len() {
                    assert(rest[i] != keep);
                }
            }
        }
    }
}

/// The hooks of this module: `Gallop.PartsGachaButton::Initialize`, which takes
/// eight parameters, and `Gallop.PartsGachaButton::SetButtonText`, which takes none.
pub fn init() -> (r: HookPlan)
    ensures
        r.namespace@ == "Gallop"@,
        r.class_name@ == "PartsGachaButton"@,
        r.hooks@.len() == 2,
        r.hooks@[0].method@ == "Initialize"@,
        r.hooks@[0].arg_count == 8,
        r.hooks@[1].method@ == "SetButtonText"@,
        r.hooks@[1].arg_count == 0,
{
    let mut hooks: Vec<MethodHook> = Vec::new();
    hooks.push(MethodHook { method: "Initialize", arg_count: 8 });
    hooks.push(MethodHook { method: "SetButtonText", arg_count: 0 });
    HookPlan { namespace: "Gallop", class_name: "PartsGachaButton", hooks }
}


/// The override a gacha button takes: none without overrides; the daily one for a
/// daily draw when configured; else the free one for a free draw when configured;
/// else the paid one for a paid draw when configured; else the one named after the
/// button's number of draws (1, 2, 3, 5 or 10), and none for any other number.
pub proof fn lemma_gacha_override_by_kind_then_count(
    is_daily: bool,
    is_free: bool,
    is_paid: bool,
    draw_count: i32,
    o: GachaButtonsOverride,
)
    ensures
        gacha_config_choice(is_daily, is_free, is_paid, draw_count, None) is None,
        is_daily && o.gacha_button_daily is Some ==> gacha_config_choice(
            is_daily,
            is_free,
            is_paid,
            draw_count,
            Some(o),
        ) == o.gacha_button_daily,
        !(is_daily && o.gacha_button_daily is Some) && is_free && o.gacha_button_free is Some
            ==> gacha_config_choice(is_daily, is_free, is_paid, draw_count, Some(o))
            == o.gacha_button_free,
        !(is_daily && o.gacha_button_daily is Some) && !(is_free && o.gacha_button_free is Some)
            && is_paid && o.gacha_button_paid is Some ==> gacha_config_choice(
            is_daily,
            is_free,
            is_paid,
            draw_count,
            Some(o),
        ) == o.gacha_button_paid,
        ({
            let by_count = !(is_daily && o.gacha_button_daily is Some) && !(is_free
                && o.gacha_button_free is Some) && !(is_paid && o.gacha_button_paid is Some);
            let r = gacha_config_choice(is_daily, is_free, is_paid, draw_count, Some(o));
            &&& by_count && draw_count == 1 ==> r == o.gacha_button_1
            &&& by_count && draw_count == 2 ==> r == o.gacha_button_2
            &&& by_count && draw_count == 3 ==> r == o.gacha_button_3
            &&& by_count && draw_count == 5 ==> r == o.gacha_button_5
            &&& by_count && draw_count == 10 ==> r == o.gacha_button_10
            &&& by_count && draw_count != 1 && draw_count != 2 && draw_count != 3 && draw_count != 5
                && draw_count != 10 ==> r is None
        }),
{
}


/// The first active label is the first label, in order, that is non-null and
/// active: every label before it is null or inactive; 0 when there is none.
pub proof fn lemma_first_active_label_is_first(labels: Seq<TextLabel>)
    ensures
        first_active_label(labels) == 0 ==> forall|i: int|
            0 <= i < labels.len() ==> #[trigger] labels[i].id == 0 || !labels[i].active,
        first_active_label(labels) != 0 ==> exists|i: int|
            0 <= i < labels.len() && #[trigger] labels[i].id == first_active_label(labels)
                && labels[i].active && forall|j: int| 0 <= j < i ==> #[trigger] labels[j].id == 0
                || !labels[j].active,
    decreases labels.len(),
{
    if labels.len() > 0 {
        lemma_first_active_label_is_first(labels.drop_first());
        if !(labels[0].id != 0 && labels[0].active) {
            if first_active_label(labels) == 0 {
                assert forall|i: int| 0 <= i < labels.len() implies #[trigger] labels[i].id == 0
                    || !labels[i].active by {
                    if i > 0 {
                        assert(labels.drop_first()[i - 1] == labels[i]);
                    }
                }
            } else {
                let k = choose|k: int|
                    0 <= k < labels.drop_first().len() && #[trigger] labels.drop_first()[k].id
                        == first_active_label(labels.drop_first()) && labels.drop_first()[k].active
                        && forall|j: int| 0 <= j < k ==> #[trigger] labels.drop_first()[j].id == 0
                        || !labels.drop_first()[j].active;
                assert(labels[k + 1] == labels.drop_first()[k]);
                assert forall|j: int| 0 <= j < k + 1 implies #[trigger] labels[j].id == 0
                    || !labels[j].active by {
                    if j > 0 {
                        assert(labels.drop_first()[j - 1] == labels[j]);
                    }
                }
            }
        }
    }
}

/// The main label is taken first from an active label of an active set (the daily
/// set first for a daily draw, the text set first otherwise), then the draw count
/// text, then any label of a non-null set in the same order.
pub proof fn lemma_main_label_priority(
    is_daily: bool,
    text_set: TextSetSnapshot,
    daily_set: TextSetSnapshot,
    draw_count_text: usize,
)
    ensures
        ({
            let r = main_label_spec(is_daily, text_set, daily_set, draw_count_text);
            let first = if is_daily { daily_set } else { text_set };
            let second = if is_daily { text_set } else { daily_set };
            &&& active_pick(first) != 0 ==> r == active_pick(first)
            &&& active_pick(first) == 0 && active_pick(second) != 0 ==> r == active_pick(second)
            &&& active_pick(first) == 0 && active_pick(second) == 0 && draw_count_text != 0
                ==> r == draw_count_text
            &&& active_pick(first) == 0 && active_pick(second) == 0 && draw_count_text == 0
                ==> r == (if any_pick(first) != 0 { any_pick(first) } else { any_pick(second) })
            &&& (first.id == 0 || !first.active) ==> active_pick(first) == 0
        }),
{
}

} // verus!
