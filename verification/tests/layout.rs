use clay_core::layout::col::{
    get_col_class, get_col_size_class, get_xs, is_valid_size, units_name, ColSize, ColWidths,
    ScreenSize, MAX_COL_NUMBER, MIN_COL_NUMBER,
};
use clay_core::layout::container::{
    get_container_form_size_class, get_container_type_class, get_container_view_class,
    get_fluid_max_class,
};
use clay_core::layout::content_row::{
    get_float_class, get_no_gutters_class, get_vertical_align_class, ContentFloat,
    ContentNoGutters, ContentVerticalAlign,
};
use clay_core::layout::row::{get_justify_class, RowJustify};
use clay_core::layout::sheet::get_size_class;
use clay_core::layout::Sizing;
use clay_core::link::{
    get_bool_class, get_borderless_class, get_btn_block_class, get_btn_class,
    get_btn_display_class, get_btn_monospaced_class, get_btn_outline_display_class,
    get_btn_small_class, get_link_display_class, get_link_outline_display_class, LinkButton,
    LinkButtonOptions, LinkDisplayType,
};

fn no_widths() -> ColWidths {
    ColWidths { lg: None, md: None, sm: None, xs: None, xl: None, size: None }
}

#[test]
fn sizing_names() {
    assert_eq!(Sizing::Small.to_string(), "sm");
    assert_eq!(Sizing::Medium.to_string(), "md");
    assert_eq!(Sizing::Large.to_string(), "lg");
    assert_eq!(Sizing::XLarge.to_string(), "xl");
    assert_eq!(Sizing::XLarge.as_ref(), "xl");
}

#[test]
fn col_size_names() {
    assert_eq!(ColSize::Boolean(true).to_string(), "Boolean");
    assert_eq!(ColSize::Number(3).to_string(), "Number");
    assert_eq!(ColSize::Auto.to_string(), "lowercase");
    assert_eq!(ScreenSize::Lg.to_string(), "lg");
    assert_eq!(ScreenSize::Md.to_string(), "md");
    assert_eq!(ScreenSize::Sm.to_string(), "sm");
    assert_eq!(ScreenSize::Xs.to_string(), "xs");
    assert_eq!(ScreenSize::Xl.to_string(), "xl");
}

#[test]
fn plain_col_class_needs_no_width() {
    assert_eq!(get_col_class(&no_widths()), Some("col".to_string()));
    let mut w = no_widths();
    w.md = Some(ColSize::Auto);
    assert_eq!(get_col_class(&w), None);
    let mut w = no_widths();
    w.size = Some(ColSize::Boolean(false));
    assert_eq!(get_col_class(&w), None);
    let mut w = no_widths();
    w.xl = Some(ColSize::Number(2));
    assert_eq!(get_col_class(&w), None);
}

#[test]
fn xs_falls_back_to_size() {
    let mut w = no_widths();
    assert_eq!(get_xs(&w), None);
    w.size = Some(ColSize::Number(4));
    assert_eq!(get_xs(&w), Some(ColSize::Number(4)));
    w.xs = Some(ColSize::Auto);
    assert_eq!(get_xs(&w), Some(ColSize::Auto));
}

#[test]
fn col_size_classes() {
    assert_eq!(get_col_size_class(&None, ScreenSize::Md), None);
    assert_eq!(get_col_size_class(&Some(ColSize::Boolean(false)), ScreenSize::Md), None);
    assert_eq!(
        get_col_size_class(&Some(ColSize::Boolean(true)), ScreenSize::Md),
        Some("col-md".to_string())
    );
    assert_eq!(get_col_size_class(&Some(ColSize::Boolean(true)), ScreenSize::Xs), None);
    assert_eq!(
        get_col_size_class(&Some(ColSize::Number(1)), ScreenSize::Lg),
        Some("col-lg-1".to_string())
    );
    assert_eq!(
        get_col_size_class(&Some(ColSize::Number(12)), ScreenSize::Xs),
        Some("col-xs-12".to_string())
    );
    assert_eq!(
        get_col_size_class(&Some(ColSize::Number(7)), ScreenSize::Sm),
        Some("col-sm-7".to_string())
    );
    assert_eq!(
        get_col_size_class(&Some(ColSize::Auto), ScreenSize::Xl),
        Some("col-xl-auto".to_string())
    );
}

#[test]
fn col_numbers_run_from_one_to_twelve() {
    assert_eq!(MIN_COL_NUMBER, 1);
    assert_eq!(MAX_COL_NUMBER, 12);
    let mut n: u8 = 1;
    while n <= 12 {
        assert_eq!(units_name(n), n.to_string());
        assert!(is_valid_size(&Some(ColSize::Number(n))));
        n += 1;
    }
    assert!(!is_valid_size(&Some(ColSize::Number(0))));
    assert!(!is_valid_size(&Some(ColSize::Number(13))));
    assert!(!is_valid_size(&Some(ColSize::Number(255))));
    assert!(is_valid_size(&None));
    assert!(is_valid_size(&Some(ColSize::Auto)));
    assert!(is_valid_size(&Some(ColSize::Boolean(false))));
}

#[test]
fn container_classes() {
    assert_eq!(get_container_type_class(true), "container-fluid");
    assert_eq!(get_container_type_class(false), "container");
    assert_eq!(get_container_form_size_class(None), None);
    assert_eq!(
        get_container_form_size_class(Some(Sizing::Small)),
        Some("container-form-sm".to_string())
    );
    assert_eq!(
        get_container_form_size_class(Some(Sizing::XLarge)),
        Some("container-form-xl".to_string())
    );
    assert_eq!(get_container_view_class(true), Some("container-view".to_string()));
    assert_eq!(get_container_view_class(false), None);
    assert_eq!(
        get_fluid_max_class(true, Some(Sizing::Medium)),
        Some("container-fluid-max-md".to_string())
    );
    assert_eq!(
        get_fluid_max_class(true, Some(Sizing::Large)),
        Some("container-fluid-max-lg".to_string())
    );
    assert_eq!(get_fluid_max_class(false, Some(Sizing::Large)), None);
    assert_eq!(get_fluid_max_class(true, None), None);
    assert_eq!(get_fluid_max_class(false, None), None);
}

#[test]
fn content_row_names() {
    assert_eq!(ContentFloat::Boolean(true).to_string(), "boolean");
    assert_eq!(ContentFloat::SmDown.to_string(), "sm-down");
    assert_eq!(ContentFloat::MdDown.to_string(), "md-down");
    assert_eq!(ContentFloat::End.to_string(), "end");
    assert_eq!(ContentFloat::EndSmDown.to_string(), "end-sm-down");
    assert_eq!(ContentFloat::EndMdDown.to_string(), "end-md-down");
    assert_eq!(ContentNoGutters::Sm.to_string(), "sm");
    assert_eq!(ContentNoGutters::X.to_string(), "x");
    assert_eq!(ContentNoGutters::Y.to_string(), "y");
    assert_eq!(ContentNoGutters::Boolean(false).to_string(), "boolean");
    assert_eq!(ContentVerticalAlign::Center.to_string(), "center");
    assert_eq!(ContentVerticalAlign::End.to_string(), "end");
}

#[test]
fn content_row_classes() {
    assert_eq!(get_float_class(&None), None);
    assert_eq!(get_float_class(&Some(ContentFloat::Boolean(false))), None);
    assert_eq!(
        get_float_class(&Some(ContentFloat::Boolean(true))),
        Some("autofit-float".to_string())
    );
    assert_eq!(
        get_float_class(&Some(ContentFloat::SmDown)),
        Some("autofit-float-sm-down".to_string())
    );
    assert_eq!(
        get_float_class(&Some(ContentFloat::EndMdDown)),
        Some("autofit-float-end-md-down".to_string())
    );
    assert_eq!(get_float_class(&Some(ContentFloat::End)), Some("autofit-float-end".to_string()));
    assert_eq!(get_no_gutters_class(&None), None);
    assert_eq!(get_no_gutters_class(&Some(ContentNoGutters::Boolean(false))), None);
    assert_eq!(
        get_no_gutters_class(&Some(ContentNoGutters::Boolean(true))),
        Some("autofit-padded-no-gutters".to_string())
    );
    assert_eq!(
        get_no_gutters_class(&Some(ContentNoGutters::Sm)),
        Some("autofit-padded-no-gutters-sm".to_string())
    );
    assert_eq!(
        get_no_gutters_class(&Some(ContentNoGutters::X)),
        Some("autofit-padded-no-gutters-x".to_string())
    );
    assert_eq!(
        get_no_gutters_class(&Some(ContentNoGutters::Y)),
        Some("autofit-padded-no-gutters-y".to_string())
    );
    assert_eq!(get_vertical_align_class(&None), None);
    assert_eq!(
        get_vertical_align_class(&Some(ContentVerticalAlign::Center)),
        Some("autofit-row-center".to_string())
    );
    assert_eq!(
        get_vertical_align_class(&Some(ContentVerticalAlign::End)),
        Some("autofit-row-end".to_string())
    );
}

#[test]
fn row_classes() {
    assert_eq!(get_justify_class(None), None);
    assert_eq!(
        get_justify_class(Some(RowJustify::Start)),
        Some("justify-content-start".to_string())
    );
    assert_eq!(
        get_justify_class(Some(RowJustify::Center)),
        Some("justify-content-center".to_string())
    );
    assert_eq!(get_justify_class(Some(RowJustify::End)), Some("justify-content-end".to_string()));
    assert_eq!(
        get_justify_class(Some(RowJustify::Around)),
        Some("justify-content-around".to_string())
    );
    assert_eq!(
        get_justify_class(Some(RowJustify::Between)),
        Some("justify-content-between".to_string())
    );
}

#[test]
fn link_button_classes() {
    let plain = LinkButton::Options(LinkButtonOptions::default());
    let all = LinkButton::Options(LinkButtonOptions { block: true, monospaced: true, small: true });
    assert_eq!(get_btn_class(&LinkButton::Boolean(true)), Some("btn"));
    assert_eq!(get_btn_class(&LinkButton::Boolean(false)), None);
    assert_eq!(get_btn_class(&plain), Some("btn"));
    assert_eq!(get_btn_block_class(&plain, None), None);
    assert_eq!(get_btn_block_class(&plain, Some(false)), None);
    assert_eq!(get_btn_block_class(&plain, Some(true)), Some("btn-block"));
    assert_eq!(get_btn_block_class(&all, None), Some("btn-block"));
    assert_eq!(get_btn_block_class(&LinkButton::Boolean(true), None), None);
    assert_eq!(get_btn_block_class(&LinkButton::Boolean(false), Some(true)), Some("btn-block"));
    assert_eq!(get_btn_monospaced_class(&plain, false), None);
    assert_eq!(get_btn_monospaced_class(&plain, true), Some("btn-monospaced"));
    assert_eq!(get_btn_monospaced_class(&all, false), Some("btn-monospaced"));
    assert_eq!(get_btn_monospaced_class(&LinkButton::Boolean(true), false), None);
    assert_eq!(get_btn_small_class(&plain, None), None);
    assert_eq!(get_btn_small_class(&plain, Some(true)), Some("btn-small"));
    assert_eq!(get_btn_small_class(&all, Some(false)), Some("btn-small"));
    assert_eq!(get_btn_small_class(&LinkButton::Boolean(true), None), None);
    assert_eq!(get_borderless_class(true), Some("btn-outline-borderless"));
    assert_eq!(get_borderless_class(false), None);
    assert_eq!(get_bool_class(true, "x"), Some("x"));
    assert_eq!(get_bool_class(false, "x"), None);
}

#[test]
fn link_display_classes() {
    let p = Some(LinkDisplayType::Primary);
    let s = Some(LinkDisplayType::Secondary);
    let u = Some(LinkDisplayType::Unstyled);
    assert_eq!(get_btn_display_class(&p, false, false), Some("btn-primary"));
    assert_eq!(get_btn_display_class(&s, false, false), Some("btn-secondary"));
    assert_eq!(get_btn_display_class(&u, false, false), Some("btn-unstyled"));
    assert_eq!(get_btn_display_class(&p, true, false), None);
    assert_eq!(get_btn_display_class(&p, false, true), None);
    assert_eq!(get_btn_display_class(&None, false, false), None);
    assert_eq!(get_btn_outline_display_class(&p, true, false), Some("btn-outline-primary"));
    assert_eq!(get_btn_outline_display_class(&s, false, true), Some("btn-outline-secondary"));
    assert_eq!(get_btn_outline_display_class(&u, true, true), Some("btn-outline-unstyled"));
    assert_eq!(get_btn_outline_display_class(&p, false, false), None);
    assert_eq!(get_btn_outline_display_class(&None, true, true), None);
    assert_eq!(get_link_display_class(&p, false), Some("link-primary"));
    assert_eq!(get_link_display_class(&s, false), Some("link-secondary"));
    assert_eq!(get_link_display_class(&u, false), Some("link-unstyled"));
    assert_eq!(get_link_display_class(&p, true), None);
    assert_eq!(get_link_display_class(&None, false), None);
    assert_eq!(get_link_outline_display_class(&p, true), Some("link-outline-primary"));
    assert_eq!(get_link_outline_display_class(&s, true), Some("link-outline-secondary"));
    assert_eq!(get_link_outline_display_class(&u, true), Some("link-outline-unstyled"));
    assert_eq!(get_link_outline_display_class(&u, false), None);
    assert_eq!(get_link_outline_display_class(&None, true), None);
}

#[test]
fn sheet_classes() {
    assert_eq!(get_size_class(true), Some("sheet-lg"));
    assert_eq!(get_size_class(false), None);
}
