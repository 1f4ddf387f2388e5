use tui_core::tui::{
    make_border_style, role, BorderShape, ColorAttr, ColorTheme, ThemeRole,
};

fn all_shapes() -> Vec<BorderShape> {
    vec![
        BorderShape::BorderUndefined,
        BorderShape::BorderNone,
        BorderShape::BorderRounded,
        BorderShape::BorderSharp,
        BorderShape::BorderBold,
        BorderShape::BorderBlock,
        BorderShape::BorderThinBlock,
        BorderShape::BorderDouble,
        BorderShape::BorderHorizontal,
        BorderShape::BorderVertical,
        BorderShape::BorderTop,
        BorderShape::BorderBottom,
        BorderShape::BorderLeft,
        BorderShape::BorderRight,
    ]
}

fn all_roles() -> Vec<ThemeRole> {
    vec![
        ThemeRole::Input,
        ThemeRole::Disabled,
        ThemeRole::Fg,
        ThemeRole::Bg,
        ThemeRole::SelectedFg,
        ThemeRole::SelectedBg,
        ThemeRole::SelectedMatch,
        ThemeRole::PreviewFg,
        ThemeRole::PreviewBg,
        ThemeRole::DarkBg,
        ThemeRole::Gutter,
        ThemeRole::Prompt,
        ThemeRole::Matches,
        ThemeRole::Current,
        ThemeRole::CurrentMatch,
        ThemeRole::Spinner,
        ThemeRole::Info,
        ThemeRole::Cursor,
        ThemeRole::Marker,
        ThemeRole::Header,
        ThemeRole::Separator,
        ThemeRole::Scrollbar,
        ThemeRole::Border,
        ThemeRole::PreviewBorder,
        ThemeRole::PreviewScroll,
        ThemeRole::BorderLabel,
        ThemeRole::PreviewLabel,
    ]
}

#[test]
fn sharp_border_glyphs() {
    let b = make_border_style(BorderShape::BorderSharp, true);
    assert_eq!(b.top_left, '┌');
    assert_eq!(b.top_right, '┐');
    assert_eq!(b.bottom_left, '└');
    assert_eq!(b.bottom_right, '┘');
    assert_eq!(b.top, '─');
    assert_eq!(b.bottom, '─');
    assert_eq!(b.left, '│');
    assert_eq!(b.right, '│');
}

#[test]
fn every_shape_falls_back_to_ascii_without_utf8() {
    for shape in all_shapes() {
        let b = make_border_style(shape, false);
        assert_eq!(b.shape, shape);
        assert_eq!(b.top, '-');
        assert_eq!(b.bottom, '-');
        assert_eq!(b.left, '|');
        assert_eq!(b.right, '|');
        assert_eq!(b.top_left, '+');
        assert_eq!(b.top_right, '+');
        assert_eq!(b.bottom_left, '+');
        assert_eq!(b.bottom_right, '+');
    }
}

#[test]
fn undefined_shape_resolves_to_rounded_glyphs() {
    let u = make_border_style(BorderShape::BorderUndefined, true);
    let r = make_border_style(BorderShape::BorderRounded, true);
    assert_eq!(u.top, r.top);
    assert_eq!(u.bottom, r.bottom);
    assert_eq!(u.left, r.left);
    assert_eq!(u.right, r.right);
    assert_eq!(u.top_left, r.top_left);
    assert_eq!(u.top_right, r.top_right);
    assert_eq!(u.bottom_left, r.bottom_left);
    assert_eq!(u.bottom_right, r.bottom_right);
    assert_eq!(r.top_left, '╭');
    assert_eq!(r.top_right, '╮');
    assert_eq!(r.bottom_left, '╰');
    assert_eq!(r.bottom_right, '╯');
}

#[test]
fn bold_and_double_border_glyphs() {
    let b = make_border_style(BorderShape::BorderBold, true);
    assert_eq!(b.top, '━');
    assert_eq!(b.top_left, '┏');
    let d = make_border_style(BorderShape::BorderDouble, true);
    assert_eq!(d.top, '═');
    assert_eq!(d.top_left, '╔');
}

#[test]
fn theme_lookup_is_total_with_zero_overrides() {
    let t = ColorTheme::construct(true, &vec![]);
    for r in all_roles() {
        let c = role(&t, r);
        assert_eq!(c.color, -1);
        assert_eq!(c.attr, 0);
    }
}

#[test]
fn overrides_land_on_their_role_only() {
    let ov = vec![(ThemeRole::Border, ColorAttr { color: 4, attr: 1 })];
    let t = ColorTheme::construct(true, &ov);
    assert_eq!(role(&t, ThemeRole::Border), ColorAttr { color: 4, attr: 1 });
    for r in all_roles() {
        if r != ThemeRole::Border {
            assert_eq!(role(&t, r), ColorAttr { color: -1, attr: 0 });
        }
    }
}

#[test]
fn last_override_wins() {
    let ov = vec![
        (ThemeRole::Prompt, ColorAttr { color: 4, attr: 1 }),
        (ThemeRole::Prompt, ColorAttr { color: 2, attr: 0 }),
    ];
    let t = ColorTheme::construct(true, &ov);
    assert_eq!(role(&t, ThemeRole::Prompt), ColorAttr { color: 2, attr: 0 });
}

#[test]
fn out_of_range_override_fails_closed_to_the_default() {
    let ov = vec![(ThemeRole::Header, ColorAttr { color: 300, attr: 0 })];
    let t = ColorTheme::construct(true, &ov);
    assert_eq!(role(&t, ThemeRole::Header), ColorAttr { color: -1, attr: 0 });
    let ov = vec![(ThemeRole::Header, ColorAttr { color: -2, attr: 0 })];
    let t = ColorTheme::construct(true, &ov);
    assert_eq!(role(&t, ThemeRole::Header), ColorAttr { color: -1, attr: 0 });
}

#[test]
fn uncolored_theme_forces_the_monochrome_fallback() {
    let ov = vec![(ThemeRole::Border, ColorAttr { color: 4, attr: 1 })];
    let t = ColorTheme::construct(false, &ov);
    assert!(!t.colored);
    for r in all_roles() {
        assert_eq!(role(&t, r), ColorAttr { color: -1, attr: 0 });
    }
}
