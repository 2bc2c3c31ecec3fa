use zed::ui::color::Color;
use zed::ui::icon::{rems_from_px, Icon, IconName, IconSize, Transformation, ONE_BITS};

#[test]
fn icon_sizes() {
    assert_eq!(IconSize::Indicator.rems(), rems_from_px(10));
    assert_eq!(IconSize::XSmall.rems(), rems_from_px(12));
    assert_eq!(IconSize::Small.rems(), rems_from_px(14));
    assert_eq!(IconSize::Medium.rems(), rems_from_px(16));
    assert_eq!(IconSize::default(), IconSize::Medium);
}

#[test]
fn icon_paths() {
    assert_eq!(IconName::Ai.path(), "icons/ai.svg");
    assert_eq!(IconName::Screen.path(), "icons/desktop.svg");
    assert_eq!(IconName::WholeWord.path(), "icons/word_search.svg");
    assert_eq!(IconName::XCircle.path(), "icons/error.svg");
    for icon in [IconName::Bolt, IconName::Tab, IconName::Update] {
        assert!(icon.path().starts_with("icons/") && icon.path().ends_with(".svg"));
    }
}

#[test]
fn icons_start_plain() {
    let svg = Icon::new(IconName::Check).render();
    assert_eq!(svg.path, "icons/check.svg");
    assert_eq!(svg.size, rems_from_px(16));
    assert_eq!(svg.text_color, Color::Default);
    assert!(svg.flex_none);
    assert_eq!(svg.transformation, Transformation::default());
    assert_eq!(svg.transformation.scale_x, ONE_BITS);
    assert_eq!(f32::from_bits(svg.transformation.scale_y), 1.0);
    assert_eq!(f32::from_bits(svg.transformation.rotate), 0.0);
}

#[test]
fn icons_are_adjusted() {
    let turned = Transformation { rotate: 2.0f32.to_bits(), ..Transformation::default() };
    let svg = Icon::from_path("icons/own.svg".to_string())
        .color(Color::Muted)
        .size(IconSize::Small)
        .transform(turned)
        .render();
    assert_eq!(svg.path, "icons/own.svg");
    assert_eq!(svg.text_color, Color::Muted);
    assert_eq!(svg.size, rems_from_px(14));
    assert_eq!(svg.transformation, turned);
}

#[test]
fn icons_are_listed_once() {
    let icons = IconName::all();
    assert_eq!(icons.len(), 85);
    assert_eq!(icons[0], IconName::Ai);
    assert_eq!(icons[icons.len() - 1], IconName::XCircle);
    for (i, icon) in icons.iter().enumerate() {
        assert_eq!(icons.iter().position(|other| other == icon), Some(i));
        assert!(icon.path().starts_with("icons/") && icon.path().ends_with(".svg"));
    }
}
