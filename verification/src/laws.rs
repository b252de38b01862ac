//! What holds of the core whatever its caller does, proved over the models
//! that the contracts speak of.

use crate::color::color_of;
use crate::compose::{composed, AttributeView, ContentView, FillView, KindView, NodeView};
use crate::context::nearest_of;
use crate::error::Error;
use crate::runtime::{RuntimeView, Step};
use crate::style::{
    resolved, Gradient, Size, StyleDescriptor, StylePropsView, Theme, VariantView,
};
use crate::value::ValueView;
use vstd::prelude::*;

verus! {

/// Every operation keeps the runtime well formed.
pub proof fn law_steps_keep_well_formed(v: RuntimeView, step: Step)
    requires
        v.wf(),
        v.allows(step),
    ensures
        v.after(step).wf(),
{
}

/// The scheduler's choice is determined: of one runtime, no two effects
/// are the next.
pub proof fn law_next_is_determined(v: RuntimeView, a: Option<usize>, b: Option<usize>)
    requires
        v.is_next(a),
        v.is_next(b),
    ensures
        a == b,
{
    match (a, b) {
        (Some(x), Some(y)) => {
            if x < y {
            } else if y < x {
            }
        },
        (Some(x), None) => {
            assert(v.is_dirty(x));
        },
        (None, Some(y)) => {
            assert(v.is_dirty(y));
        },
        (None, None) => {},
    }
}

proof fn lemma_chain_raises_rank(
    v: RuntimeView,
    rank: spec_fn(usize) -> nat,
    d: usize,
    c: usize,
    n: nat,
)
    requires
        forall|x: usize, y: usize| #[trigger] v.feeds(x, y) ==> rank(x) < rank(y),
        v.reaches_in(d, c, n),
    ensures
        rank(d) < rank(c),
    decreases n,
{
    if n == 0 {
    } else if n == 1 {
    } else {
        let m = choose|m: usize| v.reaches_in(d, m, (n - 1) as nat) && #[trigger] v.feeds(m, c);
        lemma_chain_raises_rank(v, rank, d, m, (n - 1) as nat);
    }
}

proof fn lemma_least_rank_dirty(v: RuntimeView, rank: spec_fn(usize) -> nat, e: usize) -> (m:
    usize)
    requires
        v.is_dirty(e),
    ensures
        v.is_dirty(m),
        forall|f: usize| #[trigger] v.is_dirty(f) ==> rank(m) <= rank(f),
    decreases rank(e),
{
    if exists|f: usize| #[trigger] v.is_dirty(f) && rank(f) < rank(e) {
        let f = choose|f: usize| #[trigger] v.is_dirty(f) && rank(f) < rank(e);
        lemma_least_rank_dirty(v, rank, f)
    } else {
        e
    }
}

/// Glitch-freedom. Where the feeds form no cycle, that is where the
/// effects can be ranked so that each feed leads to a higher rank, the
/// effect that runs next is fed by no dirty effect, neither directly nor
/// through other effects: every effect that it depends on has run before
/// it, and none of its dependencies is about to change.
pub proof fn law_next_is_fed_by_no_dirty_effect(
    v: RuntimeView,
    rank: spec_fn(usize) -> nat,
    e: usize,
)
    requires
        forall|x: usize, y: usize| #[trigger] v.feeds(x, y) ==> rank(x) < rank(y),
        v.is_next(Some(e)),
    ensures
        !v.awaits(e),
        forall|d: usize, n: nat| v.is_dirty(d) ==> !#[trigger] v.reaches_in(d, e, n),
        forall|x: usize| #[trigger] v.feeds(x, e) ==> !v.is_dirty(x),
{
    let m = lemma_least_rank_dirty(v, rank, e);
    assert(!v.awaits(m)) by {
        if v.awaits(m) {
            let (d, n) = choose|d: usize, n: nat| v.is_dirty(d) && #[trigger] v.reaches_in(d, m, n);
            lemma_chain_raises_rank(v, rank, d, m, n);
        }
    }
    assert(v.ready(m));
    assert(v.ready(e));
    assert forall|x: usize| #[trigger] v.feeds(x, e) implies !v.is_dirty(x) by {
        if v.is_dirty(x) {
            assert(v.reaches_in(x, e, 1));
        }
    }
}

/// One run settles one effect. After the scheduler opened the run of `e`
/// and the run ended, `e` is not dirty, every other effect is dirty
/// exactly if it was before, and no run is open: in a pass without further
/// writes each dirty effect runs once.
pub proof fn law_a_run_settles_its_effect(v: RuntimeView, e: usize, ok: bool)
    requires
        v.wf(),
        v.is_next(Some(e)),
    ensures
        !v.after_next(Some(e)).finished(ok).is_dirty(e),
        forall|f: usize|
            f != e ==> v.after_next(Some(e)).finished(ok).is_dirty(f) == v.is_dirty(f),
        v.after_next(Some(e)).finished(ok).running.len() == 0,
{
    let w = v.after_next(Some(e));
    assert(w.running =~= seq![e]);
    assert(w.current() == Some(e));
}

/// Dependencies are tracked anew in every run. An effect whose latest run
/// read `x` and nothing else depends on `x` alone: a write to another
/// signal `y` leaves it as it is, and a write to `x` makes it dirty
/// exactly if the value changes.
pub proof fn law_only_what_was_read_counts(
    v: RuntimeView,
    e: usize,
    x: usize,
    y: usize,
    new: ValueView,
)
    requires
        v.wf(),
        v.has_effect(e),
        v.has_signal(x),
        v.has_signal(y),
        x != y,
    ensures
        ({
            let w = v.begun(e).after_read(x).finished(true);
            &&& w.effects[e as int].deps == set![x]
            &&& !w.effects[e as int].dirty
            &&& w.after_write(y, new).effects[e as int] == w.effects[e as int]
            &&& w.after_write(x, new).effects[e as int].dirty == (w.signals[x as int].value
                != new)
        }),
{
    let b = v.begun(e);
    assert(b.current() == Some(e));
    let r = b.after_read(x);
    assert(r.current() == Some(e));
    let w = r.finished(true);
    assert(w.effects[e as int].deps =~= set![x]);
}

/// A write reaches the subscribers of the signal and no other effect.
pub proof fn law_write_reaches_subscribers_only(
    v: RuntimeView,
    s: usize,
    new: ValueView,
    e: usize,
)
    requires
        v.wf(),
        v.has_signal(s),
        e < v.effects.len(),
    ensures
        !v.subscribes(e, s) ==> v.after_write(s, new).effects[e as int] == v.effects[e as int],
        v.subscribes(e, s) && v.signals[s as int].value != new ==> v.after_write(s, new).is_dirty(
            e,
        ),
        v.signals[s as int].value == new ==> v.after_write(s, new).effects == v.effects,
{
    assert(v.signals[s as int].value == new ==> v.after_write(s, new).effects =~= v.effects);
}

/// Disposal is final. A disposed effect is a subscriber of no signal and
/// is not dirty, the scheduler never chooses it, and no operation brings
/// it back: after any operation it is still disposed.
pub proof fn law_disposal_is_final(v: RuntimeView, h: usize, step: Step)
    requires
        v.wf(),
        h < v.effects.len(),
        !v.effects[h as int].live,
        v.allows(step),
    ensures
        forall|s: usize| !v.subscribes(h, s),
        !v.is_dirty(h),
        !v.is_next(Some(h)),
        step != Step::RunNext(Some(h)),
        h < v.after(step).effects.len(),
        !v.after(step).effects[h as int].live,
        !v.after(step).is_dirty(h),
{
}

/// Disposing an effect makes it a disposed one and touches nothing else.
pub proof fn law_dispose_retires_one_effect(v: RuntimeView, h: usize)
    requires
        v.wf(),
        h < v.effects.len(),
    ensures
        !v.disposed(h).effects[h as int].live,
        v.disposed(h).signals == v.signals,
        v.disposed(h).running == v.running,
        forall|f: int|
            0 <= f < v.effects.len() && f != h ==> v.disposed(h).effects[f] == v.effects[f],
{
}

/// Disposing a scope leaves no effect within it live and no signal that
/// was created within it.
pub proof fn law_scope_disposal_reaches_everything_within(v: RuntimeView, root: usize)
    requires
        v.wf(),
    ensures
        forall|x: usize|
            x < v.effects.len() && #[trigger] v.within(x, root) ==> !v.scope_disposed(
                root,
            ).has_effect(x),
        forall|s: usize, o: usize|
            s < v.signals.len() && v.signals[s as int].owner == Some(o) && #[trigger] v.within(
                o,
                root,
            ) ==> !(#[trigger] v.scope_disposed(root).has_signal(s)),
{
}

/// What a component says of its own style wins over the theme: an own
/// size is the size of the descriptor, whatever size the theme holds, and
/// its extent is the entry of the scale for that size.
pub proof fn law_own_size_wins(props: StylePropsView, theme: Theme, size: Size, other: Size)
    requires
        props.size == Some(size),
    ensures
        resolved(props, theme) matches Ok(d) ==> d.size == size && d.extent
            == theme.scale.entry_of(size),
        resolved(props, Theme { size: other, ..theme }) == resolved(props, theme),
{
}

/// The theme supplies what a component leaves out, and nothing else.
pub proof fn law_theme_fills_what_is_omitted(props: StylePropsView, theme: Theme)
    ensures
        resolved(props, theme) matches Ok(d) ==> {
            &&& d.size == match props.size {
                Some(s) => s,
                None => theme.size,
            }
            &&& d.padding == match props.padding {
                Some(s) => s,
                None => theme.padding,
            }
            &&& d.compact == match props.compact {
                Some(b) => b,
                None => theme.compact,
            }
            &&& d.hover_tilt == match props.hover_tilt {
                Some(b) => b,
                None => theme.hover_tilt,
            }
            &&& d.kind == match props.variant {
                Some(v) => v.kind_of(),
                None => theme.variant,
            }
        },
{
}

/// A gradient keeps what it was given: the descriptor holds the two
/// endpoint colors and the angle as they were stated.
pub proof fn law_gradient_is_kept(
    props: StylePropsView,
    theme: Theme,
    a: Seq<char>,
    b: Seq<char>,
    angle: i64,
)
    requires
        props.variant == Some(VariantView::Gradient(a, b, angle)),
    ensures
        resolved(props, theme) is Ok <==> color_of(a) is Ok && color_of(
            b,
        ) is Ok,
        resolved(props, theme) matches Ok(d) ==> d.gradient == Some(
            Gradient {
                from: color_of(a)->Ok_0,
                to: color_of(b)->Ok_0,
                angle,
            },
        ),
        resolved(props, theme) matches Err(e) ==> e == Error::InvalidColorSpec,
{
}

/// The nearest provider shadows the ones around it, and leaving its scope
/// brings back what was in force before.
pub proof fn law_nested_provider_shadows(provided: Seq<Theme>, theme: Theme)
    ensures
        nearest_of(provided.push(theme)) == theme,
        nearest_of(provided.push(theme).drop_last()) == nearest_of(provided),
{
    assert(provided.push(theme).drop_last() =~= provided);
}

/// Resolution repeats: two results for the same style intent and theme
/// are equal.
pub proof fn law_resolution_repeats(
    props: StylePropsView,
    theme: Theme,
    first: Result<StyleDescriptor, Error>,
    second: Result<StyleDescriptor, Error>,
)
    requires
        first == resolved(props, theme),
        second == resolved(props, theme),
    ensures
        first == second,
{
}

/// Composition is determined by its arguments: two compositions of the
/// same kind, properties, content and fills under the same theme are
/// structurally equal, or fail alike.
pub proof fn law_composition_repeats(
    kind: KindView,
    style: StylePropsView,
    attributes: Seq<AttributeView>,
    children: Seq<ContentView>,
    fills: Seq<FillView>,
    theme: Theme,
    first: Result<NodeView, Error>,
    second: Result<NodeView, Error>,
)
    requires
        first == composed(kind, style, attributes, children, fills, theme),
        second == composed(kind, style, attributes, children, fills, theme),
    ensures
        first == second,
{
}

} // verus!
