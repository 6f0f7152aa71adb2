use vstd::prelude::*;
use crate::config::{MIN_GAP_SIZE, SCREEN_WIDTH};
use crate::game::obstacle_ticked;
use crate::physics::{column_of, gap_size_for, half_toward_zero, scores_now, Obstacle};
use crate::highscore::{
    decimal, digits_value, high_score_of, integer_text, is_digit, split_sign, trim_end, trim_start,
    trimmed, digit_char, MINUS_SIGN,
};
use crate::scroll::{background_cell, background_source, Picture};
use crate::menu::{max_option_spec, menu_step, Key, MenuState, Settings};

verus! {

/// Every spawned gap is at least `MIN_GAP_SIZE` tall, and a higher score never
/// gives a larger gap.
pub proof fn lemma_gap_size_floor_and_monotone(a: int, b: int)
    requires
        a <= b,
    ensures
        gap_size_for(a) >= MIN_GAP_SIZE,
        gap_size_for(b) >= MIN_GAP_SIZE,
        gap_size_for(b) <= gap_size_for(a),
{
    assert(half_toward_zero(a) <= half_toward_zero(b)) by (nonlinear_arith)
        requires
            a <= b,
            half_toward_zero(a) == (if a >= 0 { a / 2 } else { -((-a) / 2) }),
            half_toward_zero(b) == (if b >= 0 { b / 2 } else { -((-b) / 2) }),
    ;
}

/// The scored flag after the player has stood at each `(player_x, column)`
/// pair of `steps` in turn.
pub open spec fn scored_after(scored: bool, steps: Seq<(int, int)>) -> bool
    decreases steps.len(),
{
    if steps.len() == 0 {
        scored
    } else {
        scored_after(scored || scores_now(scored, steps[0].0, steps[0].1), steps.drop_first())
    }
}

/// How many of those steps scored.
pub open spec fn times_scored(scored: bool, steps: Seq<(int, int)>) -> nat
    decreases steps.len(),
{
    if steps.len() == 0 {
        0
    } else {
        (if scores_now(scored, steps[0].0, steps[0].1) { 1nat } else { 0nat })
            + times_scored(scored || scores_now(scored, steps[0].0, steps[0].1), steps.drop_first())
    }
}

/// An obstacle scores at most once over any run of ticks; it scores at all
/// exactly when at some tick the player is strictly right of its column, and
/// then it does so at the first such tick. Once set, the flag stays set.
pub proof fn lemma_scores_at_most_once(scored: bool, steps: Seq<(int, int)>)
    ensures
        times_scored(scored, steps) <= 1,
        scored ==> times_scored(scored, steps) == 0 && scored_after(scored, steps),
        !scored ==> (times_scored(scored, steps) == 1 <==> exists|i: int|
            0 <= i < steps.len() && steps[i].0 > steps[i].1),
        !scored ==> (scored_after(scored, steps) <==> exists|i: int|
            0 <= i < steps.len() && steps[i].0 > steps[i].1),
        !scored && steps.len() > 0 && steps[0].0 > steps[0].1 ==> times_scored(scored, steps)
            == 1 && times_scored(true, steps.drop_first()) == 0,
    decreases steps.len(),
{
    if steps.len() > 0 {
        let rest = steps.drop_first();
        lemma_scores_at_most_once(true, rest);
        lemma_scores_at_most_once(scored, rest);
        if !scored {
            if exists|i: int| 0 <= i < steps.len() && steps[i].0 > steps[i].1 {
                let i = choose|i: int| 0 <= i < steps.len() && steps[i].0 > steps[i].1;
                if i > 0 {
                    assert(rest[i - 1] == steps[i]);
                }
            }
            if exists|i: int| 0 <= i < rest.len() && rest[i].0 > rest[i].1 {
                let i = choose|i: int| 0 <= i < rest.len() && rest[i].0 > rest[i].1;
                assert(steps[i + 1] == rest[i]);
            }
        }
    }
}


/// The menu and settings after each key of `keys` in turn.
pub open spec fn run_menu(m: MenuState, s: Settings, keys: Seq<Key>) -> (MenuState, Settings)
    decreases keys.len(),
{
    if keys.len() == 0 {
        (m, s)
    } else {
        let (menu, sel, s2, _action) = menu_step(m, s, keys[0]);
        run_menu(MenuState { current_menu: menu, selected_option: sel as i32 }, s2, keys.drop_first())
    }
}

/// One key press keeps the highlighted row within the panel's rows and the
/// spacing within its bounds.
pub proof fn lemma_menu_step_wf(m: MenuState, s: Settings, key: Key)
    requires
        m.wf(),
        s.wf(),
    ensures
        ({
            let (menu, sel, s2, _action) = menu_step(m, s, key);
            &&& 0 <= sel <= max_option_spec(menu)
            &&& s2.wf()
        }),
{
}

/// Under any sequence of key presses the highlighted row stays within
/// `[0, max_option_spec(panel)]` of the panel shown, and the spacing within
/// its bounds.
pub proof fn lemma_menu_selection_in_range(m: MenuState, s: Settings, keys: Seq<Key>)
    requires
        m.wf(),
        s.wf(),
    ensures
        run_menu(m, s, keys).0.wf(),
        run_menu(m, s, keys).1.wf(),
    decreases keys.len(),
{
    if keys.len() > 0 {
        lemma_menu_step_wf(m, s, keys[0]);
        let (menu, sel, s2, _action) = menu_step(m, s, keys[0]);
        lemma_menu_selection_in_range(
            MenuState { current_menu: menu, selected_option: sel as i32 },
            s2,
            keys.drop_first(),
        );
    }
}

/// The decimal digits of `n` are one or more digits and spell `n`.
pub proof fn lemma_decimal_spells(n: nat)
    ensures
        decimal(n).len() > 0,
        forall|i: int| 0 <= i < decimal(n).len() ==> is_digit(#[trigger] decimal(n)[i]),
        digits_value(decimal(n)) == n,
    decreases n,
{
    let d = decimal(n);
    if n < 10 {
        assert(d.drop_last().len() == 0);
        assert(digits_value(d.drop_last()) == 0);
    } else {
        lemma_decimal_spells(n / 10);
        assert(d.drop_last() == decimal(n / 10));
        assert(d.last() == digit_char((n % 10) as int));
        assert(n == (n / 10) * 10 + n % 10);
        assert forall|i: int| 0 <= i < d.len() implies is_digit(#[trigger] d[i]) by {
            if i < d.len() - 1 {
                assert(d[i] == decimal(n / 10)[i]);
            }
        }
    }
}

/// Writing a high score and reading the file back gives the same score.
pub proof fn lemma_high_score_round_trip(n: i32)
    ensures
        high_score_of(integer_text(n as int)) == n,
{
    let t = integer_text(n as int);
    let m: nat = if n < 0 { (-n) as nat } else { n as nat };
    lemma_decimal_spells(m);
    let d = decimal(m);
    assert(t.last() == d.last());
    assert(!is_digit(MINUS_SIGN));
    assert(trim_start(t) == t);
    assert(trim_end(t) == t);
    assert(trimmed(t) == t);
    if n < 0 {
        assert(t.drop_first() == d);
        assert(split_sign(t) == (true, d));
    } else {
        assert(split_sign(t) == (false, d));
    }
}

/// Background sampling is periodic in the offset with the image's width as
/// period: scrolling by one more image width samples the same pixel.
pub proof fn lemma_background_source_period(x: int, y: int, offset: int, width: int, height: int)
    requires
        width > 0,
        height > 0,
    ensures
        background_source(x, y, offset + width, width, height) == background_source(
            x,
            y,
            offset,
            width,
            height,
        ),
{
    vstd::arithmetic::div_mod::lemma_mod_add_multiples_vanish(offset, width);
}

/// Scrolling a background by its image's width paints every screen cell as
/// scrolling it by nothing does, and likewise for any offset.
pub proof fn lemma_background_render_period(pic: Picture, offset: int, i: int)
    requires
        pic.wf(),
    ensures
        background_cell(pic, offset + pic.width_spec(), i) == background_cell(pic, offset, i),
        background_cell(pic, pic.width_spec(), i) == background_cell(pic, 0, i),
{
    pic.lemma_sides_positive();
    let x = i % (SCREEN_WIDTH as int);
    let y = i / (SCREEN_WIDTH as int);
    lemma_background_source_period(x, y, offset, pic.width_spec(), pic.height_spec());
    lemma_background_source_period(x, y, 0, pic.width_spec(), pic.height_spec());
}

/// One tick of play steps an obstacle by one half cell and sets its scored
/// flag exactly when it was unset and the player is strictly right of the
/// stepped column; a set flag is never cleared, and the gap never changes.
pub proof fn lemma_tick_scores_once(o: Obstacle, px: int)
    requires
        o.x_halves > i64::MIN,
    ensures
        obstacle_ticked(o, px).x_halves == o.x_halves - 1,
        obstacle_ticked(o, px).gap_y == o.gap_y,
        obstacle_ticked(o, px).size == o.size,
        obstacle_ticked(o, px).scored == (o.scored || px > column_of(o.x_halves - 1)),
        o.scored ==> obstacle_ticked(o, px).scored,
        !o.scored && obstacle_ticked(o, px).scored ==> px > column_of(o.x_halves - 1),
{
}

} // verus!
