use surface_presenter::color::{ClearColor, Palette, FULL_INTENSITY};
use surface_presenter::config::{Config, FeatureSet, FramePolicy, Recovery};

#[test]
fn ambient_color_is_dark_grey() {
    assert_eq!(ClearColor::ambient(), ClearColor { red: 50, green: 50, blue: 50, alpha: 1000 });
}

#[test]
fn opaque_color_has_full_alpha() {
    assert_eq!(FULL_INTENSITY, 1000);
    assert_eq!(ClearColor::opaque(1, 2, 3), ClearColor { red: 1, green: 2, blue: 3, alpha: 1000 });
}

#[test]
fn palette_needs_two_different_colors() {
    let a = ClearColor::opaque(1, 2, 3);
    let b = ClearColor::opaque(1, 2, 4);
    assert_eq!(Palette::new(a, a), None);
    assert_eq!(Palette::new(a, b), Some(Palette { base: a, highlight: b }));
}

#[test]
fn palette_colors_differing_in_alpha_only_are_different() {
    let a = ClearColor { red: 1, green: 2, blue: 3, alpha: 1000 };
    let b = ClearColor { red: 1, green: 2, blue: 3, alpha: 999 };
    assert!(Palette::new(a, b).is_some());
}

#[test]
fn palette_picks_by_flag() {
    let a = ClearColor::opaque(1, 2, 3);
    let b = ClearColor::opaque(4, 5, 6);
    let palette = Palette::new(a, b).unwrap();
    assert_eq!(palette.color(false), a);
    assert_eq!(palette.color(true), b);
}

#[test]
fn default_palette() {
    let palette = Palette::default();
    assert_eq!(palette.base, ClearColor::ambient());
    assert_eq!(palette.highlight, ClearColor { red: 500, green: 500, blue: 500, alpha: 1000 });
    assert_ne!(palette.base, palette.highlight);
}

#[test]
fn default_config_logs_and_continues() {
    let config = Config::default();
    assert_eq!(config.policy, FramePolicy::LogAndContinue);
    assert_eq!(config.recovery, Recovery::SkipFrame);
    assert_eq!(
        config.features,
        FeatureSet { pipeline: false, cursor_toggle: false, touch_logging: false }
    );
    assert_eq!(config.palette, Palette::default());
}

#[test]
fn builders_change_one_thing_each() {
    let base = Config::default();
    let palette =
        Palette::new(ClearColor::opaque(0, 0, 0), ClearColor::opaque(1000, 0, 0)).unwrap();

    let config = base.with_pipeline(true);
    assert_eq!(
        config,
        Config {
            features: FeatureSet { pipeline: true, cursor_toggle: false, touch_logging: false },
            ..base
        }
    );
    let config = base.with_cursor_toggle(true);
    assert_eq!(
        config,
        Config {
            features: FeatureSet { pipeline: false, cursor_toggle: true, touch_logging: false },
            ..base
        }
    );
    let config = base.with_touch_logging(true);
    assert_eq!(
        config,
        Config {
            features: FeatureSet { pipeline: false, cursor_toggle: false, touch_logging: true },
            ..base
        }
    );
    assert_eq!(base.with_policy(FramePolicy::Fatal), Config { policy: FramePolicy::Fatal, ..base });
    assert_eq!(
        base.with_recovery(Recovery::ReconfigureOnce),
        Config { recovery: Recovery::ReconfigureOnce, ..base }
    );
    assert_eq!(base.with_palette(palette), Config { palette, ..base });
}

#[test]
fn builders_chain_and_undo() {
    let config = Config::default()
        .with_pipeline(true)
        .with_cursor_toggle(true)
        .with_touch_logging(true)
        .with_policy(FramePolicy::Fatal);
    assert_eq!(
        config.features,
        FeatureSet { pipeline: true, cursor_toggle: true, touch_logging: true }
    );
    assert_eq!(config.policy, FramePolicy::Fatal);
    let undone = config
        .with_pipeline(false)
        .with_cursor_toggle(false)
        .with_touch_logging(false)
        .with_policy(FramePolicy::LogAndContinue);
    assert_eq!(undone, Config::default());
}
