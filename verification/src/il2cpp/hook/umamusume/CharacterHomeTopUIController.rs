//! Button text overrides on the character home screen: they apply only in the
//! enhancement menu, to each text component of a button once, with the second
//! component taking the second text and offsets.
use vstd::prelude::*;
use crate::il2cpp::hook::hook_plan::{HookPlan, MethodHook};
use crate::il2cpp::hook::umamusume::ui_config::UITextConfig;
use crate::text::{chars_contain, chars_of, contains_infix, lowercase_of, to_lowercase};

verus! {

/// A lowercased button name places the screen in the enhancement menu: it names
/// none of the other menus and names the umamusume one.
pub open spec fn enhancement_menu_name(lowered: Seq<char>) -> bool {
    &&& !contains_infix(lowered, "story"@)
    &&& !contains_infix(lowered, "race"@)
    &&& !contains_infix(lowered, "circle"@)
    &&& !contains_infix(lowered, "shop"@)
    &&& !contains_infix(lowered, "gacha"@)
    &&& !contains_infix(lowered, "mission"@)
    &&& !contains_infix(lowered, "present"@)
    &&& contains_infix(lowered, "umamusume"@)
}

/// Whether the lowercased name of the card button places the screen in the
/// enhancement menu.
pub fn is_enhancement_menu_name(lowered: &str) -> (r: bool)
    ensures
        r == enhancement_menu_name(lowered@),
{
    let l = chars_of(lowered);
    let story = chars_of("story");
    let race = chars_of("race");
    let circle = chars_of("circle");
    let shop = chars_of("shop");
    let gacha = chars_of("gacha");
    let mission = chars_of("mission");
    let present = chars_of("present");
    let umamusume = chars_of("umamusume");
    !chars_contain(&l, &story) && !chars_contain(&l, &race) && !chars_contain(&l, &circle)
        && !chars_contain(&l, &shop) && !chars_contain(&l, &gacha) && !chars_contain(&l, &mission)
        && !chars_contain(&l, &present) && chars_contain(&l, &umamusume)
}

/// Whether the button overrides apply after the view updates: only when the card
/// button exists, and, when its game object's name can be read, only when that
/// name (lowercased) places the screen in the enhancement menu.
pub fn should_apply_button_overrides(card_button_present: bool, button_name: Option<&str>) -> (r: bool)
    ensures
        r == (card_button_present && match button_name {
            Some(n) => enhancement_menu_name(lowercase_of(n@)),
            None => true,
        }),
{
    if !card_button_present {
        return false;
    }
    match button_name {
        Some(n) => {
            let lowered = to_lowercase(n);
            is_enhancement_menu_name(lowered.as_str())
        },
        None => true,
    }
}

/// `xs` appended to `acc`, leaving out each element already present.
pub open spec fn append_new(acc: Seq<usize>, xs: Seq<usize>) -> Seq<usize>
    decreases xs.len(),
{
    if xs.len() == 0 {
        acc
    } else {
        let before = append_new(acc, xs.drop_last());
        if before.contains(xs.last()) {
            before
        } else {
            before.push(xs.last())
        }
    }
}

/// The text components of a button, by address: its target text first (when not
/// null), then those found among its children, each once.
pub open spec fn text_components(target_text: usize, children: Seq<usize>) -> Seq<usize> {
    append_new(if target_text != 0 { seq![target_text] } else { Seq::empty() }, children)
}

/// The text components to update on a button: its target text (when not null),
/// then its children's text components (`None` when the lookup gave a null
/// array), each component once.
pub fn collect_text_components(target_text: usize, children: Option<&Vec<usize>>) -> (r: Vec<usize>)
    ensures
        r@ == text_components(
            target_text,
            match children {
                Some(c) => c@,
                None => Seq::empty(),
            },
        ),
{
    let mut out: Vec<usize> = Vec::new();
    if target_text != 0 {
        out.push(target_text);
    }
    let ghost start = out@;
    assert(start =~= if target_text != 0 { seq![target_text] } else { Seq::<usize>::empty() });
    match children {
        None => {
            assert(append_new(start, Seq::<usize>::empty()) == start);
        },
        Some(c) => {
            let mut i: usize = 0;
            while i < c.len()
                invariant
                    i <= c.len(),
                    out@ == append_new(start, c@.take(i as int)),
                decreases c.len() - i,
            {
                assert(c@.take(i + 1).drop_last() =~= c@.take(i as int));
                let x = c[i];
                let mut present = false;
                let mut k: usize = 0;
                while k < out.len()
                    invariant
                        k <= out.len(),
                        present == (exists|j: int| 0 <= j < k && out@[j] == x),
                    decreases out.len() - k,
                {
                    if out[k] == x {
                        present = true;
                    }
                    k = k + 1;
                }
                assert(present == out@.contains(x));
                if !present {
                    out.push(x);
                }
                i = i + 1;
            }
            assert(c@.take(c.len() as int) =~= c@);
        },
    }
    out
}

/// Each text component is updated once: appending leaves out what is present, so
/// a list without repeats stays without repeats.
pub proof fn lemma_components_without_repeats(acc: Seq<usize>, xs: Seq<usize>)
    requires
        acc.no_duplicates(),
    ensures
        append_new(acc, xs).no_duplicates(),
    decreases xs.len(),
{
    if xs.len() > 0 {
        lemma_components_without_repeats(acc, xs.drop_last());
        let before = append_new(acc, xs.drop_last());
        if !before.contains(xs.last()) {
            assert forall|i: int, j: int|
                0 <= i < j < before.push(xs.last()).len() implies before.push(xs.last())[i]
                != before.push(xs.last())[j] by {
                if j == before.len() {
                    assert(before.contains(before[i]));
                }
            }
        }
    }
}

/// What the text component at a position of a button gets: the second component
/// (position 1) the second text and offsets, every other one the first.
#[derive(Debug)]
pub struct ButtonTextSlot {
    pub text: Option<String>,
    pub offset_x: Option<u32>,
    pub offset_y: Option<u32>,
}

/// The text and offsets for the text component at `index` of a button.
pub fn button_text_slot(config: &UITextConfig, index: usize) -> (r: ButtonTextSlot)
    ensures
        index == 1 ==> r.text == config.text2 && r.offset_x == config.position_offset_x2
            && r.offset_y == config.position_offset_y2,
        index != 1 ==> r.text == config.text && r.offset_x == config.position_offset_x
            && r.offset_y == config.position_offset_y,
{
    if index == 1 {
        ButtonTextSlot {
            text: match &config.text2 {
                Some(t) => Some(t.clone()),
                None => None,
            },
            offset_x: config.position_offset_x2,
            offset_y: config.position_offset_y2,
        }
    } else {
        ButtonTextSlot {
            text: match &config.text {
                Some(t) => Some(t.clone()),
                None => None,
            },
            offset_x: config.position_offset_x,
            offset_y: config.position_offset_y,
        }
    }
}

/// What one text component of a button gets from its override: the text (set only
/// when there is one), the font size and line spacing (each set when configured),
/// and the offsets from its recorded base position (applied only when either is
/// given; an absent one leaves that axis at its base).
#[derive(Debug)]
pub struct ButtonComponentPlan {
    pub component: usize,
    pub text: Option<String>,
    pub font_size: Option<i32>,
    pub line_spacing: Option<u32>,
    pub offset_x: Option<u32>,
    pub offset_y: Option<u32>,
    pub moves: bool,
}

/// The plan of the component at position `i` of a button under `config`: the
/// second component (position 1) takes the second text and offsets, every other
/// one the first; all take the font size and line spacing.
pub open spec fn component_planned(config: UITextConfig, i: int, component: usize, p: ButtonComponentPlan) -> bool {
    let (text, ox, oy) = if i == 1 {
        (config.text2, config.position_offset_x2, config.position_offset_y2)
    } else {
        (config.text, config.position_offset_x, config.position_offset_y)
    };
    &&& p.component == component
    &&& p.text == text
    &&& p.font_size == config.font_size
    &&& p.line_spacing == config.line_spacing
    &&& p.offset_x == ox
    &&& p.offset_y == oy
    &&& p.moves == (ox is Some || oy is Some)
}

/// The plan of a button override over its text components, in order (an empty
/// list of components gives an empty plan: nothing is done).
pub fn plan_button_texts(config: &UITextConfig, components: &Vec<usize>) -> (r: Vec<ButtonComponentPlan>)
    ensures
        r.len() == components.len(),
        forall|i: int| 0 <= i < r.len() ==> component_planned(*config, i, components@[i], #[trigger] r@[i]),
{
    let mut out: Vec<ButtonComponentPlan> = Vec::new();
    let mut i: usize = 0;
    while i < components.len()
        invariant
            i <= components.len(),
            out.len() == i,
            forall|j: int| 0 <= j < i ==> component_planned(*config, j, components@[j], #[trigger] out@[j]),
        decreases components.len() - i,
    {
        let slot = button_text_slot(config, i);
        let moves = slot.offset_x.is_some() || slot.offset_y.is_some();
        out.push(ButtonComponentPlan {
            component: components[i],
            text: slot.text,
            font_size: config.font_size,
            line_spacing: config.line_spacing,
            offset_x: slot.offset_x,
            offset_y: slot.offset_y,
            moves,
        });
        i = i + 1;
    }
    out
}

/// The hook of this module: `Gallop.CharacterHomeTopUI::UpdateView`, which takes no
/// parameters.
pub fn init() -> (r: HookPlan)
    ensures
        r.namespace@ == "Gallop"@,
        r.class_name@ == "CharacterHomeTopUI"@,
        r.hooks@.len() == 1,
        r.hooks@[0].method@ == "UpdateView"@,
        r.hooks@[0].arg_count == 0,
{
    let mut hooks: Vec<MethodHook> = Vec::new();
    hooks.push(MethodHook { method: "UpdateView", arg_count: 0 });
    HookPlan { namespace: "Gallop", class_name: "CharacterHomeTopUI", hooks }
}


/// The second text component (position 1) takes the second text and offsets, every
/// other one the first; every one takes the font size and line spacing; a component
/// moves exactly when one of its offsets is given.
pub proof fn lemma_second_component_takes_second_slot(config: UITextConfig, i: int, component: usize, p: ButtonComponentPlan)
    requires
        component_planned(config, i, component, p),
    ensures
        p.component == component,
        p.font_size == config.font_size,
        p.line_spacing == config.line_spacing,
        i == 1 ==> p.text == config.text2 && p.offset_x == config.position_offset_x2
            && p.offset_y == config.position_offset_y2,
        i != 1 ==> p.text == config.text && p.offset_x == config.position_offset_x
            && p.offset_y == config.position_offset_y,
        p.moves <==> (p.offset_x is Some || p.offset_y is Some),
{
}


/// Appending new elements keeps what was there, in place, and adds exactly the
/// elements of `xs`: an element is in the result exactly when it is in `acc` or in
/// `xs`.
pub proof fn lemma_append_new_members(acc: Seq<usize>, xs: Seq<usize>, x: usize)
    ensures
        append_new(acc, xs).len() >= acc.len(),
        append_new(acc, xs).subrange(0, acc.len() as int) == acc,
        append_new(acc, xs).contains(x) <==> (acc.contains(x) || xs.contains(x)),
    decreases xs.len(),
{
    if xs.len() > 0 {
        lemma_append_new_members(acc, xs.drop_last(), x);
        lemma_append_new_members(acc, xs.drop_last(), xs.last());
        let before = append_new(acc, xs.drop_last());
        assert(xs =~= xs.drop_last().push(xs.last()));
        if !before.contains(xs.last()) {
            assert(before.push(xs.last()).subrange(0, acc.len() as int) =~= before.subrange(0, acc.len() as int));
            if before.push(xs.last()).contains(x) && x != xs.last() {
                let i = choose|i: int| 0 <= i < before.push(xs.last()).len() && before.push(xs.last())[i] == x;
                assert(before[i] == x);
            }
            if before.contains(x) {
                let i = choose|i: int| 0 <= i < before.len() && before[i] == x;
                assert(before.push(xs.last())[i] == x);
            }
            assert(before.push(xs.last())[before.len() as int] == xs.last());
        }
        if xs.contains(x) && !xs.drop_last().contains(x) {
            let i = choose|i: int| 0 <= i < xs.len() && xs[i] == x;
            if i < xs.len() - 1 {
                assert(xs.drop_last()[i] == x);
            }
        }
        if xs.drop_last().contains(x) {
            let i = choose|i: int| 0 <= i < xs.drop_last().len() && xs.drop_last()[i] == x;
            assert(xs[i] == x);
        }
    }
}

/// The text components of a button: its target text first (when not null), then
/// each component found among the children; nothing else, and none twice.
pub proof fn lemma_text_components_of_button(target_text: usize, children: Seq<usize>, x: usize)
    ensures
        target_text != 0 ==> text_components(target_text, children).len() > 0
            && text_components(target_text, children)[0] == target_text,
        text_components(target_text, children).contains(x) <==> ((target_text != 0 && x == target_text)
            || children.contains(x)),
        text_components(target_text, children).no_duplicates(),
{
    let acc = if target_text != 0 { seq![target_text] } else { Seq::<usize>::empty() };
    lemma_append_new_members(acc, children, x);
    lemma_components_without_repeats(acc, children);
    if target_text != 0 {
        assert(text_components(target_text, children).subrange(0, 1)[0] == target_text);
    }
    if acc.contains(x) {
        assert(target_text != 0 && x == target_text);
    }
    if target_text != 0 && x == target_text {
        assert(acc[0] == x);
    }
}

} // verus!
