//! Border-glyph resolution, the color-theme model, and the capability
//! contracts a concrete terminal backend must satisfy.

use vstd::prelude::*;
use crate::event::Event;

verus! {

pub type Color = i32;

pub type Attr = i32;

pub type FillReturn = isize;

/// The abstract border decorations a caller can ask for, plus the
/// `BorderUndefined` sentinel used before a shape has been chosen.
#[derive(Clone, Copy, Debug, PartialEq, Eq, Structural)]
pub enum BorderShape {
    BorderUndefined,
    BorderNone,
    BorderRounded,
    BorderSharp,
    BorderBold,
    BorderBlock,
    BorderThinBlock,
    BorderDouble,
    BorderHorizontal,
    BorderVertical,
    BorderTop,
    BorderBottom,
    BorderLeft,
    BorderRight,
}

/// Application-level notifications that flow through the same event loop as
/// decoded input.
#[derive(Clone, Copy, Debug, PartialEq, Eq, Structural)]
pub enum Events {
    Resize,
    Change,
    BackendEOF,
    Start,
    Load,
    Focus,
    One,
    Zero,
    Result,
    Jump,
    JumpCancel,
    ClickHeader,
}

/// A one-off foreground/background/attribute override used at draw time.
#[derive(Clone, Copy, Debug, PartialEq, Eq, Structural)]
pub struct ColorPair {
    pub fg: Color,
    pub bg: Color,
    pub attr: Attr,
}

/// A color index together with an attribute bitmask, the value of one theme
/// role.
#[derive(Clone, Copy, Debug, PartialEq, Eq, Structural)]
pub struct ColorAttr {
    pub color: Color,
    pub attr: Attr,
}

/// The concrete glyphs for one border: the requested shape and the eight
/// drawing characters.
#[derive(Clone, Copy, Debug, PartialEq, Eq, Structural)]
pub struct BorderStyle {
    pub shape: BorderShape,
    pub top: char,
    pub bottom: char,
    pub left: char,
    pub right: char,
    pub top_left: char,
    pub top_right: char,
    pub bottom_left: char,
    pub bottom_right: char,
}

/// The terminal's reported dimensions.
#[derive(Clone, Copy, Debug, PartialEq, Eq, Structural)]
pub struct TermSize {
    pub lines: isize,
    pub columns: isize,
    pub px_width: isize,
    pub pw_height: isize,
}

/// The glyph set produced for a shape and a UTF-8 capability flag. Without
/// UTF-8 capability every shape collapses to the ASCII fallback set; with
/// it, each shape has its fixed glyphs, and any shape without a set of its
/// own (including `BorderUndefined`) falls through to the rounded set.
pub open spec fn spec_border_style(shape: BorderShape, utf: bool) -> BorderStyle {
    if !utf {
        BorderStyle {
            shape,
            top: '-',
            bottom: '-',
            left: '|',
            right: '|',
            top_left: '+',
            top_right: '+',
            bottom_left: '+',
            bottom_right: '+',
        }
    } else {
        match shape {
            BorderShape::BorderSharp => BorderStyle {
                shape,
                top: '─',
                bottom: '─',
                left: '│',
                right: '│',
                top_left: '┌',
                top_right: '┐',
                bottom_left: '└',
                bottom_right: '┘',
            },
            BorderShape::BorderBold => BorderStyle {
                shape,
                top: '━',
                bottom: '━',
                left: '┃',
                right: '┃',
                top_left: '┏',
                top_right: '┓',
                bottom_left: '┗',
                bottom_right: '┛',
            },
            BorderShape::BorderBlock => BorderStyle {
                shape,
                top: '▀',
                bottom: '▄',
                left: '▌',
                right: '▐',
                top_left: '▛',
                top_right: '▜',
                bottom_left: '▙',
                bottom_right: '▟',
            },
            BorderShape::BorderThinBlock => BorderStyle {
                shape,
                top: '▔',
                bottom: '▁',
                left: '▏',
                right: '▕',
                top_left: '🭽',
                top_right: '🭾',
                bottom_left: '🭼',
                bottom_right: '🭿',
            },
            BorderShape::BorderDouble => BorderStyle {
                shape,
                top: '═',
                bottom: '═',
                left: '║',
                right: '║',
                top_left: '╔',
                top_right: '╗',
                bottom_left: '╚',
                bottom_right: '╝',
            },
            _ => BorderStyle {
                shape,
                top: '─',
                bottom: '─',
                left: '│',
                right: '│',
                top_left: '╭',
                top_right: '╮',
                bottom_left: '╰',
                bottom_right: '╯',
            },
        }
    }
}

/// Resolve an abstract border shape and a UTF-8 capability flag to the
/// eight concrete border-drawing characters. Total: every shape has a
/// defined mapping, and without UTF-8 capability every shape degrades to
/// the same ASCII fallback set.
pub fn make_border_style(shape: BorderShape, utf: bool) -> (r: BorderStyle)
    ensures
        r == spec_border_style(shape, utf),
{
    if !utf {
        return BorderStyle {
            shape,
            top: '-',
            bottom: '-',
            left: '|',
            right: '|',
            top_left: '+',
            top_right: '+',
            bottom_left: '+',
            bottom_right: '+',
        };
    }
    match shape {
        BorderShape::BorderSharp => BorderStyle {
            shape,
            top: '─',
            bottom: '─',
            left: '│',
            right: '│',
            top_left: '┌',
            top_right: '┐',
            bottom_left: '└',
            bottom_right: '┘',
        },
        BorderShape::BorderBold => BorderStyle {
            shape,
            top: '━',
            bottom: '━',
            left: '┃',
            right: '┃',
            top_left: '┏',
            top_right: '┓',
            bottom_left: '┗',
            bottom_right: '┛',
        },
        BorderShape::BorderBlock => BorderStyle {
            shape,
            top: '▀',
            bottom: '▄',
            left: '▌',
            right: '▐',
            top_left: '▛',
            top_right: '▜',
            bottom_left: '▙',
            bottom_right: '▟',
        },
        BorderShape::BorderThinBlock => BorderStyle {
            shape,
            top: '▔',
            bottom: '▁',
            left: '▏',
            right: '▕',
            top_left: '🭽',
            top_right: '🭾',
            bottom_left: '🭼',
            bottom_right: '🭿',
        },
        BorderShape::BorderDouble => BorderStyle {
            shape,
            top: '═',
            bottom: '═',
            left: '║',
            right: '║',
            top_left: '╔',
            top_right: '╗',
            bottom_left: '╚',
            bottom_right: '╝',
        },
        _ => BorderStyle {
            shape,
            top: '─',
            bottom: '─',
            left: '│',
            right: '│',
            top_left: '╭',
            top_right: '╮',
            bottom_left: '╰',
            bottom_right: '╯',
        },
    }
}

/// Without UTF-8 capability, every shape resolves to the ASCII fallback
/// glyphs: `-` edges, `|` sides and `+` corners.
pub proof fn lemma_border_ascii_fallback(shape: BorderShape)
    ensures
        spec_border_style(shape, false).top == '-',
        spec_border_style(shape, false).bottom == '-',
        spec_border_style(shape, false).left == '|',
        spec_border_style(shape, false).right == '|',
        spec_border_style(shape, false).top_left == '+',
        spec_border_style(shape, false).top_right == '+',
        spec_border_style(shape, false).bottom_left == '+',
        spec_border_style(shape, false).bottom_right == '+',
        spec_border_style(shape, false).shape == shape,
{
}

/// With UTF-8 capability, the undefined sentinel shape resolves to the same
/// glyphs as the rounded shape.
pub proof fn lemma_border_undefined_is_rounded()
    ensures
        ({
            let u = spec_border_style(BorderShape::BorderUndefined, true);
            let r = spec_border_style(BorderShape::BorderRounded, true);
            u.top == r.top && u.bottom == r.bottom && u.left == r.left && u.right == r.right
                && u.top_left == r.top_left && u.top_right == r.top_right && u.bottom_left
                == r.bottom_left && u.bottom_right == r.bottom_right
        }),
{
}

/// The semantic slots a theme assigns a color and attribute to, one per
/// drawable element of the interface.
#[derive(Clone, Copy, Debug, PartialEq, Eq, Structural)]
pub enum ThemeRole {
    Input,
    Disabled,
    Fg,
    Bg,
    SelectedFg,
    SelectedBg,
    SelectedMatch,
    PreviewFg,
    PreviewBg,
    DarkBg,
    Gutter,
    Prompt,
    Matches,
    Current,
    CurrentMatch,
    Spinner,
    Info,
    Cursor,
    Marker,
    Header,
    Separator,
    Scrollbar,
    Border,
    PreviewBorder,
    PreviewScroll,
    BorderLabel,
    PreviewLabel,
}

/// One color/attribute pair per theme role, plus the flag that selects
/// color output; when the flag is false every role holds the monochrome
/// fallback. Immutable once constructed.
#[derive(Clone, Copy, Debug, PartialEq, Eq, Structural)]
pub struct ColorTheme {
    pub colored: bool,
    pub input: ColorAttr,
    pub disabled: ColorAttr,
    pub fg: ColorAttr,
    pub bg: ColorAttr,
    pub selected_fg: ColorAttr,
    pub selected_bg: ColorAttr,
    pub selected_match: ColorAttr,
    pub preview_fg: ColorAttr,
    pub preview_bg: ColorAttr,
    pub dark_bg: ColorAttr,
    pub gutter: ColorAttr,
    pub prompt: ColorAttr,
    pub matches: ColorAttr,
    pub current: ColorAttr,
    pub current_match: ColorAttr,
    pub spinner: ColorAttr,
    pub info: ColorAttr,
    pub cursor: ColorAttr,
    pub marker: ColorAttr,
    pub header: ColorAttr,
    pub separator: ColorAttr,
    pub scrollbar: ColorAttr,
    pub border: ColorAttr,
    pub preview_border: ColorAttr,
    pub preview_scroll: ColorAttr,
    pub border_label: ColorAttr,
    pub preview_label: ColorAttr,
}

/// The documented default for every role: the terminal's own colors
/// (index -1) with no attributes. It is also the monochrome fallback that
/// an uncolored theme forces on all roles.
pub open spec fn default_attr() -> ColorAttr {
    ColorAttr { color: -1i32, attr: 0i32 }
}

/// The value a theme holds for the given role.
pub open spec fn spec_role(t: ColorTheme, r: ThemeRole) -> ColorAttr {
    match r {
        ThemeRole::Input => t.input,
        ThemeRole::Disabled => t.disabled,
        ThemeRole::Fg => t.fg,
        ThemeRole::Bg => t.bg,
        ThemeRole::SelectedFg => t.selected_fg,
        ThemeRole::SelectedBg => t.selected_bg,
        ThemeRole::SelectedMatch => t.selected_match,
        ThemeRole::PreviewFg => t.preview_fg,
        ThemeRole::PreviewBg => t.preview_bg,
        ThemeRole::DarkBg => t.dark_bg,
        ThemeRole::Gutter => t.gutter,
        ThemeRole::Prompt => t.prompt,
        ThemeRole::Matches => t.matches,
        ThemeRole::Current => t.current,
        ThemeRole::CurrentMatch => t.current_match,
        ThemeRole::Spinner => t.spinner,
        ThemeRole::Info => t.info,
        ThemeRole::Cursor => t.cursor,
        ThemeRole::Marker => t.marker,
        ThemeRole::Header => t.header,
        ThemeRole::Separator => t.separator,
        ThemeRole::Scrollbar => t.scrollbar,
        ThemeRole::Border => t.border,
        ThemeRole::PreviewBorder => t.preview_border,
        ThemeRole::PreviewScroll => t.preview_scroll,
        ThemeRole::BorderLabel => t.border_label,
        ThemeRole::PreviewLabel => t.preview_label,
    }
}

/// True for a color/attribute pair a configuration may set: a terminal
/// color index between -1 (the terminal's own color) and 255.
pub open spec fn valid_attr(c: ColorAttr) -> bool {
    -1 <= c.color <= 255
}

/// The value a role ends up with after applying a list of overrides in
/// order on top of the default: the last valid override for the role wins,
/// an override with an out-of-range color index is ignored, and a role
/// never overridden keeps the default.
pub open spec fn apply_overrides(ov: Seq<(ThemeRole, ColorAttr)>, r: ThemeRole) -> ColorAttr
    decreases ov.len(),
{
    if ov.len() == 0 {
        default_attr()
    } else if ov.last().0 == r && valid_attr(ov.last().1) {
        ov.last().1
    } else {
        apply_overrides(ov.drop_last(), r)
    }
}

/// Look up the color and attribute a theme assigns to a role. Total: every
/// declared role has a value in every theme.
pub fn role(theme: &ColorTheme, role_id: ThemeRole) -> (c: ColorAttr)
    ensures
        c == spec_role(*theme, role_id),
{
    match role_id {
        ThemeRole::Input => theme.input,
        ThemeRole::Disabled => theme.disabled,
        ThemeRole::Fg => theme.fg,
        ThemeRole::Bg => theme.bg,
        ThemeRole::SelectedFg => theme.selected_fg,
        ThemeRole::SelectedBg => theme.selected_bg,
        ThemeRole::SelectedMatch => theme.selected_match,
        ThemeRole::PreviewFg => theme.preview_fg,
        ThemeRole::PreviewBg => theme.preview_bg,
        ThemeRole::DarkBg => theme.dark_bg,
        ThemeRole::Gutter => theme.gutter,
        ThemeRole::Prompt => theme.prompt,
        ThemeRole::Matches => theme.matches,
        ThemeRole::Current => theme.current,
        ThemeRole::CurrentMatch => theme.current_match,
        ThemeRole::Spinner => theme.spinner,
        ThemeRole::Info => theme.info,
        ThemeRole::Cursor => theme.cursor,
        ThemeRole::Marker => theme.marker,
        ThemeRole::Header => theme.header,
        ThemeRole::Separator => theme.separator,
        ThemeRole::Scrollbar => theme.scrollbar,
        ThemeRole::Border => theme.border,
        ThemeRole::PreviewBorder => theme.preview_border,
        ThemeRole::PreviewScroll => theme.preview_scroll,
        ThemeRole::BorderLabel => theme.border_label,
        ThemeRole::PreviewLabel => theme.preview_label,
    }
}

/// Set one role's value, leaving every other role untouched.
fn set_role(theme: &mut ColorTheme, role_id: ThemeRole, v: ColorAttr)
    ensures
        spec_role(*final(theme), role_id) == v,
        forall|r: ThemeRole| r != role_id ==> spec_role(*final(theme), r) == spec_role(
            *old(theme),
            r,
        ),
        final(theme).colored == old(theme).colored,
{
    match role_id {
        ThemeRole::Input => theme.input = v,
        ThemeRole::Disabled => theme.disabled = v,
        ThemeRole::Fg => theme.fg = v,
        ThemeRole::Bg => theme.bg = v,
        ThemeRole::SelectedFg => theme.selected_fg = v,
        ThemeRole::SelectedBg => theme.selected_bg = v,
        ThemeRole::SelectedMatch => theme.selected_match = v,
        ThemeRole::PreviewFg => theme.preview_fg = v,
        ThemeRole::PreviewBg => theme.preview_bg = v,
        ThemeRole::DarkBg => theme.dark_bg = v,
        ThemeRole::Gutter => theme.gutter = v,
        ThemeRole::Prompt => theme.prompt = v,
        ThemeRole::Matches => theme.matches = v,
        ThemeRole::Current => theme.current = v,
        ThemeRole::CurrentMatch => theme.current_match = v,
        ThemeRole::Spinner => theme.spinner = v,
        ThemeRole::Info => theme.info = v,
        ThemeRole::Cursor => theme.cursor = v,
        ThemeRole::Marker => theme.marker = v,
        ThemeRole::Header => theme.header = v,
        ThemeRole::Separator => theme.separator = v,
        ThemeRole::Scrollbar => theme.scrollbar = v,
        ThemeRole::Border => theme.border = v,
        ThemeRole::PreviewBorder => theme.preview_border = v,
        ThemeRole::PreviewScroll => theme.preview_scroll = v,
        ThemeRole::BorderLabel => theme.border_label = v,
        ThemeRole::PreviewLabel => theme.preview_label = v,
    }
}

/// A theme with the default value in every role.
fn default_theme(colored: bool) -> (t: ColorTheme)
    ensures
        t.colored == colored,
        forall|r: ThemeRole| spec_role(t, r) == default_attr(),
{
    let d = ColorAttr { color: -1, attr: 0 };
    ColorTheme {
        colored,
        input: d,
        disabled: d,
        fg: d,
        bg: d,
        selected_fg: d,
        selected_bg: d,
        selected_match: d,
        preview_fg: d,
        preview_bg: d,
        dark_bg: d,
        gutter: d,
        prompt: d,
        matches: d,
        current: d,
        current_match: d,
        spinner: d,
        info: d,
        cursor: d,
        marker: d,
        header: d,
        separator: d,
        scrollbar: d,
        border: d,
        preview_border: d,
        preview_scroll: d,
        border_label: d,
        preview_label: d,
    }
}

impl ColorTheme {
    /// Build a theme from configuration input: a color/monochrome flag and
    /// a list of per-role overrides, applied in order on top of the
    /// documented defaults. An override with an out-of-range color index
    /// fails closed: it is ignored rather than rejected. Overrides count
    /// only for a colored theme; an uncolored theme forces the monochrome
    /// fallback on every role.
    pub fn construct(colored: bool, overrides: &Vec<(ThemeRole, ColorAttr)>) -> (t: ColorTheme)
        ensures
            t.colored == colored,
            forall|r: ThemeRole| spec_role(t, r) == if colored {
                apply_overrides(overrides@, r)
            } else {
                default_attr()
            },
    {
        let mut t = default_theme(colored);
        if !colored {
            proof {
                assert(forall|r: ThemeRole| apply_overrides(Seq::empty(), r) == default_attr());
            }
            return t;
        }
        let n = overrides.len();
        let mut i: usize = 0;
        proof {
            assert(forall|r: ThemeRole|
                spec_role(t, r) == apply_overrides(overrides@.take(0), r));
        }
        while i < n
            invariant
                colored,
                n == overrides@.len(),
                i <= n,
                t.colored == colored,
                forall|r: ThemeRole| spec_role(t, r) == apply_overrides(
                    overrides@.take(i as int),
                    r,
                ),
            decreases n - i,
        {
            let (ri, vi) = overrides[i];
            if -1 <= vi.color && vi.color <= 255 {
                set_role(&mut t, ri, vi);
            }
            proof {
                let pre = overrides@.take(i as int);
                let post = overrides@.take(i + 1 as int);
                assert(post.drop_last() =~= pre);
                assert(post.last() == overrides@[i as int]);
            }
            i = i + 1;
        }
        proof {
            assert(overrides@.take(n as int) =~= overrides@);
        }
        t
    }
}

/// Theme lookup is total: a theme constructed with no overrides still holds
/// a value, the documented default, for every declared role.
pub proof fn lemma_theme_total_without_overrides(ov: Seq<(ThemeRole, ColorAttr)>, r: ThemeRole)
    requires
        ov.len() == 0,
    ensures
        apply_overrides(ov, r) == default_attr(),
{
}

/// The capability contract a concrete terminal backend must satisfy: it
/// reports the terminal size, delivers the next decoded event, manages the
/// screen lifecycle, and says when the next input must be treated as a
/// resize.
pub trait Renderer where Self: core::marker::Sized {
    type Win;

    fn new(&self) -> Self;

    fn resize(&self, max_height: i32);

    fn pause(&self, clear: bool);

    fn resume(&self, clear: bool, sigcont: bool);

    fn clear(&self);

    fn refresh_windows(&self, windows: Vec<Self::Win>);

    fn refresh(&self);

    fn close(&self);

    fn pass_through(&self, s: String);

    fn needs_scrollbar_redraw(&self) -> bool;

    fn should_emit_resize_event(&self) -> bool;

    fn get_char(&self) -> Event;

    fn top(&self) -> i32;

    fn max_x(&self) -> i32;

    fn max_y(&self) -> i32;

    fn size(&self) -> TermSize;
}

/// The capability contract a drawing surface must satisfy: it owns a
/// rectangular region, moves the cursor, paints plain or colored text
/// (reporting how much was written before truncation), draws a border from
/// a resolved `BorderStyle`, and brackets painted text with hyperlink
/// markers.
pub trait Window where Self: core::marker::Sized {
    fn new(&self, top: i32, left: i32, width: i32, height: i32, preview: bool,
        border_style: BorderStyle) -> Self;

    fn top(&self) -> i32;

    fn left(&self) -> i32;

    fn width(&self) -> i32;

    fn height(&self) -> i32;

    fn draw_border(&self);

    fn draw_h_border(&self);

    fn refresh(&self);

    fn finish_fill(&self);

    fn close(&self);

    fn x(&self) -> i32;

    fn y(&self) -> i32;

    fn enclose(&self, y: i32, x: i32) -> bool;

    fn mov(&self, y: i32, x: i32);

    fn mov_and_clear(&self, y: i32, x: i32);

    fn print(&self, text: String);

    fn cprint(&self, color: ColorPair, text: String);

    fn fill(&self, text: String) -> FillReturn;

    fn cfill(&self, fg: Color, bg: Color, attr: Attr, text: String) -> FillReturn;

    fn link_begin(&self, uri: String, params: String);

    fn link_end(&self);

    fn erase(&self);

    fn erase_maybe(&self);
}

} // verus!
