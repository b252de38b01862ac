//! Style intent, the theme that completes it, and the descriptor that
//! resolution produces.

use crate::color::{color_of, parse_color, Rgb};
use crate::error::Error;
use vstd::prelude::*;

verus! {

/// The sizes of the kit, from the smallest to the largest.
#[derive(Clone, Copy, Debug, PartialEq, Eq, Structural)]
pub enum Size {
    ExtraSmall,
    Small,
    Medium,
    Large,
    ExtraLarge,
}

impl Size {
    /// The place of a size in the order of sizes, counted from zero.
    pub open spec fn rank_of(self) -> int {
        match self {
            Size::ExtraSmall => 0,
            Size::Small => 1,
            Size::Medium => 2,
            Size::Large => 3,
            Size::ExtraLarge => 4,
        }
    }

    /// The place of this size in the order of sizes, counted from zero.
    pub fn rank(self) -> (r: u8)
        ensures
            r == self.rank_of(),
    {
        match self {
            Size::ExtraSmall => 0,
            Size::Small => 1,
            Size::Medium => 2,
            Size::Large => 3,
            Size::ExtraLarge => 4,
        }
    }
}

/// The visual treatments, without the data that a gradient carries.
#[derive(Clone, Copy, Debug, PartialEq, Eq, Structural)]
pub enum VariantKind {
    Filled,
    Outline,
    Light,
    Subtle,
    Gradient,
}

/// The visual treatment that a component asks for. A gradient names its two
/// endpoint colors as text and its angle in degrees.
#[derive(Clone, Debug, PartialEq, Eq)]
pub enum Variant {
    Filled,
    Outline,
    Light,
    Subtle,
    Gradient(String, String, i64),
}

/// A `Variant`, with the endpoint texts as their characters.
pub enum VariantView {
    Filled,
    Outline,
    Light,
    Subtle,
    Gradient(Seq<char>, Seq<char>, i64),
}

impl View for Variant {
    type V = VariantView;

    open spec fn view(&self) -> VariantView {
        match self {
            Variant::Filled => VariantView::Filled,
            Variant::Outline => VariantView::Outline,
            Variant::Light => VariantView::Light,
            Variant::Subtle => VariantView::Subtle,
            Variant::Gradient(a, b, angle) => VariantView::Gradient(a@, b@, *angle),
        }
    }
}

impl VariantView {
    /// The treatment without its data.
    pub open spec fn kind_of(self) -> VariantKind {
        match self {
            VariantView::Filled => VariantKind::Filled,
            VariantView::Outline => VariantKind::Outline,
            VariantView::Light => VariantKind::Light,
            VariantView::Subtle => VariantKind::Subtle,
            VariantView::Gradient(_, _, _) => VariantKind::Gradient,
        }
    }
}

impl Variant {
    /// The treatment without its data.
    pub fn kind(&self) -> (k: VariantKind)
        ensures
            k == self@.kind_of(),
    {
        match self {
            Variant::Filled => VariantKind::Filled,
            Variant::Outline => VariantKind::Outline,
            Variant::Light => VariantKind::Light,
            Variant::Subtle => VariantKind::Subtle,
            Variant::Gradient(_, _, _) => VariantKind::Gradient,
        }
    }
}

/// Two endpoint colors and the angle, in degrees, of the line between them.
/// The angle is kept as it was given.
#[derive(Clone, Copy, Debug, PartialEq, Eq, Structural)]
pub struct Gradient {
    pub from: Rgb,
    pub to: Rgb,
    pub angle: i64,
}

impl Gradient {
    /// The angle as a direction, in `0..360`.
    pub fn direction(&self) -> (d: u16)
        ensures
            d == self.angle % 360,
    {
        let r: i64 = self.angle % 360;
        if r < 0 {
            (r + 360) as u16
        } else {
            r as u16
        }
    }
}

/// What a component says of its own style. A field left `None` is taken
/// from the theme.
#[derive(Clone, Debug, PartialEq, Eq)]
pub struct StyleProps {
    pub variant: Option<Variant>,
    pub size: Option<Size>,
    pub padding: Option<Size>,
    pub compact: Option<bool>,
    pub bordered: Option<bool>,
    pub hover_tilt: Option<bool>,
}

/// `StyleProps`, with texts as their characters.
pub struct StylePropsView {
    pub variant: Option<VariantView>,
    pub size: Option<Size>,
    pub padding: Option<Size>,
    pub compact: Option<bool>,
    pub bordered: Option<bool>,
    pub hover_tilt: Option<bool>,
}

impl View for StyleProps {
    type V = StylePropsView;

    open spec fn view(&self) -> StylePropsView {
        StylePropsView {
            variant: match self.variant {
                Some(v) => Some(v@),
                None => None,
            },
            size: self.size,
            padding: self.padding,
            compact: self.compact,
            bordered: self.bordered,
            hover_tilt: self.hover_tilt,
        }
    }
}

/// The colors of a theme.
#[derive(Clone, Copy, Debug, PartialEq, Eq, Structural)]
pub struct Palette {
    /// The main color of the kit.
    pub accent: Rgb,
    /// The far endpoint of a gradient that starts at the accent.
    pub accent_end: Rgb,
    /// A pale background that goes with the accent.
    pub tint: Rgb,
    /// Text on an accent background.
    pub on_accent: Rgb,
    /// The border of a bordered component.
    pub line: Rgb,
}

/// The extent, in presentation units, of each size.
#[derive(Clone, Copy, Debug, PartialEq, Eq, Structural)]
pub struct SizeScale {
    pub extra_small: u32,
    pub small: u32,
    pub medium: u32,
    pub large: u32,
    pub extra_large: u32,
}

impl SizeScale {
    /// The extent that the scale gives to a size.
    pub open spec fn entry_of(self, size: Size) -> u32 {
        match size {
            Size::ExtraSmall => self.extra_small,
            Size::Small => self.small,
            Size::Medium => self.medium,
            Size::Large => self.large,
            Size::ExtraLarge => self.extra_large,
        }
    }

    /// The extent that the scale gives to a size.
    pub fn entry(&self, size: Size) -> (e: u32)
        ensures
            e == self.entry_of(size),
    {
        match size {
            Size::ExtraSmall => self.extra_small,
            Size::Small => self.small,
            Size::Medium => self.medium,
            Size::Large => self.large,
            Size::ExtraLarge => self.extra_large,
        }
    }
}

/// The palette, the size scale and the defaults of a scope. Components read
/// it and never change it.
#[derive(Clone, Copy, Debug, PartialEq, Eq, Structural)]
pub struct Theme {
    pub palette: Palette,
    pub scale: SizeScale,
    pub variant: VariantKind,
    pub angle: i64,
    pub size: Size,
    pub padding: Size,
    pub compact: bool,
    pub bordered: bool,
    pub hover_tilt: bool,
}

impl Variant {
    /// A gradient between the colors that two texts name, at an angle in
    /// degrees.
    pub fn gradient(from: &str, to: &str, angle: i64) -> (v: Variant)
        ensures
            v@ == VariantView::Gradient(from@, to@, angle),
    {
        Variant::Gradient(from.to_owned(), to.to_owned(), angle)
    }
}

impl StyleProps {
    /// Style intent that leaves everything to the theme.
    pub fn new() -> (props: StyleProps)
        ensures
            props@ == (StylePropsView {
                variant: None,
                size: None,
                padding: None,
                compact: None,
                bordered: None,
                hover_tilt: None,
            }),
    {
        StyleProps {
            variant: None,
            size: None,
            padding: None,
            compact: None,
            bordered: None,
            hover_tilt: None,
        }
    }

    /// The same intent with this treatment.
    pub fn with_variant(self, variant: Variant) -> (props: StyleProps)
        ensures
            props@ == (StylePropsView { variant: Some(variant@), ..self@ }),
    {
        StyleProps { variant: Some(variant), ..self }
    }

    /// The same intent with this size.
    pub fn with_size(self, size: Size) -> (props: StyleProps)
        ensures
            props@ == (StylePropsView { size: Some(size), ..self@ }),
    {
        StyleProps { size: Some(size), ..self }
    }

    /// The same intent with this padding.
    pub fn with_padding(self, padding: Size) -> (props: StyleProps)
        ensures
            props@ == (StylePropsView { padding: Some(padding), ..self@ }),
    {
        StyleProps { padding: Some(padding), ..self }
    }

    /// The same intent, compact or not.
    pub fn with_compact(self, compact: bool) -> (props: StyleProps)
        ensures
            props@ == (StylePropsView { compact: Some(compact), ..self@ }),
    {
        StyleProps { compact: Some(compact), ..self }
    }

    /// The same intent, bordered or not.
    pub fn with_bordered(self, bordered: bool) -> (props: StyleProps)
        ensures
            props@ == (StylePropsView { bordered: Some(bordered), ..self@ }),
    {
        StyleProps { bordered: Some(bordered), ..self }
    }

    /// The same intent, tilting under the pointer or not.
    pub fn with_hover_tilt(self, hover_tilt: bool) -> (props: StyleProps)
        ensures
            props@ == (StylePropsView { hover_tilt: Some(hover_tilt), ..self@ }),
    {
        StyleProps { hover_tilt: Some(hover_tilt), ..self }
    }
}

/// The theme of a scope that provides none.
pub open spec fn default_theme() -> Theme {
    Theme {
        palette: Palette {
            accent: Rgb { red: 62, green: 175, blue: 168 },
            accent_end: Rgb { red: 75, green: 213, blue: 204 },
            tint: Rgb { red: 226, green: 245, blue: 244 },
            on_accent: Rgb { red: 255, green: 255, blue: 255 },
            line: Rgb { red: 206, green: 212, blue: 218 },
        },
        scale: SizeScale { extra_small: 10, small: 12, medium: 16, large: 20, extra_large: 32 },
        variant: VariantKind::Filled,
        angle: 45,
        size: Size::Medium,
        padding: Size::Medium,
        compact: false,
        bordered: false,
        hover_tilt: false,
    }
}

impl Default for Theme {
    fn default() -> (theme: Theme)
        ensures
            theme == default_theme(),
    {
        Theme {
            palette: Palette {
                accent: Rgb { red: 62, green: 175, blue: 168 },
                accent_end: Rgb { red: 75, green: 213, blue: 204 },
                tint: Rgb { red: 226, green: 245, blue: 244 },
                on_accent: Rgb { red: 255, green: 255, blue: 255 },
                line: Rgb { red: 206, green: 212, blue: 218 },
            },
            scale: SizeScale { extra_small: 10, small: 12, medium: 16, large: 20, extra_large: 32 },
            variant: VariantKind::Filled,
            angle: 45,
            size: Size::Medium,
            padding: Size::Medium,
            compact: false,
            bordered: false,
            hover_tilt: false,
        }
    }
}

/// How the background of a component is painted.
#[derive(Clone, Copy, Debug, PartialEq, Eq, Structural)]
pub enum Fill {
    /// Nothing is painted.
    Clear,
    /// One color.
    Solid(Rgb),
    /// The gradient of the descriptor.
    Blend,
}

/// The resolved style of one component: every attribute is concrete.
#[derive(Clone, Copy, Debug, PartialEq, Eq, Structural)]
pub struct StyleDescriptor {
    pub kind: VariantKind,
    pub fill: Fill,
    pub outline: Option<Rgb>,
    pub ink: Rgb,
    pub size: Size,
    pub extent: u32,
    pub padding: Size,
    pub inset: u32,
    pub compact: bool,
    pub hover_tilt: bool,
    pub gradient: Option<Gradient>,
}

/// The treatment in force: the component's own, else the theme's.
pub open spec fn chosen_kind(props: StylePropsView, theme: Theme) -> VariantKind {
    match props.variant {
        Some(v) => v.kind_of(),
        None => theme.variant,
    }
}

/// The gradient in force, if the treatment is a gradient: the component's
/// own endpoints, read from their texts, else the theme's.
pub open spec fn chosen_gradient(props: StylePropsView, theme: Theme) -> Result<
    Option<Gradient>,
    Error,
> {
    match props.variant {
        Some(VariantView::Gradient(a, b, angle)) => match color_of(a) {
            Err(e) => Err(e),
            Ok(from) => match color_of(b) {
                Err(e) => Err(e),
                Ok(to) => Ok(Some(Gradient { from, to, angle })),
            },
        },
        Some(_) => Ok(None),
        None => if theme.variant == VariantKind::Gradient {
            Ok(
                Some(
                    Gradient {
                        from: theme.palette.accent,
                        to: theme.palette.accent_end,
                        angle: theme.angle,
                    },
                ),
            )
        } else {
            Ok(None)
        },
    }
}

/// The value of a property: the component's own where it gave one, else the
/// theme's.
pub open spec fn own_or<T>(own: Option<T>, inherited: T) -> T {
    match own {
        Some(v) => v,
        None => inherited,
    }
}

/// The background of a treatment.
pub open spec fn fill_of(kind: VariantKind, palette: Palette) -> Fill {
    match kind {
        VariantKind::Filled => Fill::Solid(palette.accent),
        VariantKind::Light => Fill::Solid(palette.tint),
        VariantKind::Gradient => Fill::Blend,
        VariantKind::Outline => Fill::Clear,
        VariantKind::Subtle => Fill::Clear,
    }
}

/// The border of a treatment: an outline is drawn in the accent, any other
/// bordered component in the line color.
pub open spec fn outline_of(kind: VariantKind, bordered: bool, palette: Palette) -> Option<Rgb> {
    if kind == VariantKind::Outline {
        Some(palette.accent)
    } else if bordered {
        Some(palette.line)
    } else {
        None
    }
}

/// The text color of a treatment.
pub open spec fn ink_of(kind: VariantKind, palette: Palette) -> Rgb {
    match kind {
        VariantKind::Filled => palette.on_accent,
        VariantKind::Gradient => palette.on_accent,
        _ => palette.accent,
    }
}

/// The descriptor of a component whose gradient, if any, is known.
pub open spec fn described(
    props: StylePropsView,
    theme: Theme,
    gradient: Option<Gradient>,
) -> StyleDescriptor {
    let kind = chosen_kind(props, theme);
    let size = own_or(props.size, theme.size);
    let padding = own_or(props.padding, theme.padding);
    let compact = own_or(props.compact, theme.compact);
    let room = theme.scale.entry_of(padding);
    StyleDescriptor {
        kind,
        fill: fill_of(kind, theme.palette),
        outline: outline_of(kind, own_or(props.bordered, theme.bordered), theme.palette),
        ink: ink_of(kind, theme.palette),
        size,
        extent: theme.scale.entry_of(size),
        padding,
        inset: if compact {
            (room / 2) as u32
        } else {
            room
        },
        compact,
        hover_tilt: own_or(props.hover_tilt, theme.hover_tilt),
        gradient,
    }
}

/// The descriptor that resolution yields, or the error of the first
/// endpoint text that is no color.
pub open spec fn resolved(props: StylePropsView, theme: Theme) -> Result<StyleDescriptor, Error> {
    match chosen_gradient(props, theme) {
        Err(e) => Err(e),
        Ok(gradient) => Ok(described(props, theme, gradient)),
    }
}

fn pick<T: Copy>(own: &Option<T>, inherited: T) -> (v: T)
    ensures
        v == own_or(*own, inherited),
{
    match own {
        Some(v) => *v,
        None => inherited,
    }
}

fn kind_in_force(props: &StyleProps, theme: &Theme) -> (k: VariantKind)
    ensures
        k == chosen_kind(props@, *theme),
{
    match &props.variant {
        Some(v) => v.kind(),
        None => theme.variant,
    }
}

fn gradient_in_force(props: &StyleProps, theme: &Theme) -> (r: Result<Option<Gradient>, Error>)
    ensures
        r == chosen_gradient(props@, *theme),
{
    match &props.variant {
        Some(Variant::Gradient(a, b, angle)) => {
            match parse_color(a.as_str()) {
                Err(e) => Err(e),
                Ok(from) => match parse_color(b.as_str()) {
                    Err(e) => Err(e),
                    Ok(to) => Ok(Some(Gradient { from, to, angle: *angle })),
                },
            }
        },
        Some(_) => Ok(None),
        None => {
            if theme.variant == VariantKind::Gradient {
                Ok(
                    Some(
                        Gradient {
                            from: theme.palette.accent,
                            to: theme.palette.accent_end,
                            angle: theme.angle,
                        },
                    ),
                )
            } else {
                Ok(None)
            }
        },
    }
}

/// Builds the descriptor of a component once its gradient, if any, is
/// known. What the component gave wins over what the theme holds.
pub fn describe(props: &StyleProps, theme: &Theme, gradient: Option<Gradient>) -> (d:
    StyleDescriptor)
    ensures
        d == described(props@, *theme, gradient),
{
    let kind = kind_in_force(props, theme);
    let size = pick(&props.size, theme.size);
    let padding = pick(&props.padding, theme.padding);
    let compact = pick(&props.compact, theme.compact);
    let bordered = pick(&props.bordered, theme.bordered);
    let room = theme.scale.entry(padding);
    let fill = match kind {
        VariantKind::Filled => Fill::Solid(theme.palette.accent),
        VariantKind::Light => Fill::Solid(theme.palette.tint),
        VariantKind::Gradient => Fill::Blend,
        VariantKind::Outline => Fill::Clear,
        VariantKind::Subtle => Fill::Clear,
    };
    let outline = if kind == VariantKind::Outline {
        Some(theme.palette.accent)
    } else if bordered {
        Some(theme.palette.line)
    } else {
        None
    };
    let ink = match kind {
        VariantKind::Filled => theme.palette.on_accent,
        VariantKind::Gradient => theme.palette.on_accent,
        _ => theme.palette.accent,
    };
    StyleDescriptor {
        kind,
        fill,
        outline,
        ink,
        size,
        extent: theme.scale.entry(size),
        padding,
        inset: if compact {
            room / 2
        } else {
            room
        },
        compact,
        hover_tilt: pick(&props.hover_tilt, theme.hover_tilt),
        gradient,
    }
}

/// Resolves the style of a component against the theme of its scope. The
/// endpoint texts of a gradient are read as colors here; the first that is
/// no color makes the resolution fail with `InvalidColorSpec`. Neither
/// argument is changed.
pub fn resolve(props: &StyleProps, theme: &Theme) -> (r: Result<StyleDescriptor, Error>)
    ensures
        r == resolved(props@, *theme),
{
    match gradient_in_force(props, theme) {
        Err(e) => Err(e),
        Ok(gradient) => Ok(describe(props, theme, gradient)),
    }
}

} // verus!
