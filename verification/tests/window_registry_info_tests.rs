use komorebi_switcher::window_registry_info::{
    Placement, StoredFields, WindowRegistryInfo, APP_REG_KEY, WINDOW_POS_X_KEY, WINDOW_POS_Y_KEY,
    WINDOW_SIZE_AUTO_HEIGHT_KEY, WINDOW_SIZE_AUTO_WIDTH_KEY, WINDOW_SIZE_HEIGHT_KEY,
    WINDOW_SIZE_WIDTH_KEY,
};

fn nothing_stored() -> StoredFields {
    StoredFields { x: None, y: None, width: None, height: None, auto_width: None, auto_height: None }
}

fn text(s: &str) -> Option<String> {
    Some(s.to_string())
}

fn written_over(stored: StoredFields, written: StoredFields) -> StoredFields {
    StoredFields {
        x: written.x.or(stored.x),
        y: written.y.or(stored.y),
        width: written.width.or(stored.width),
        height: written.height.or(stored.height),
        auto_width: written.auto_width.or(stored.auto_width),
        auto_height: written.auto_height.or(stored.auto_height),
    }
}

#[test]
fn names_of_the_fields() {
    assert_eq!(APP_REG_KEY, "SOFTWARE\\amrbashir\\komorebi-switcher");
    assert_eq!(WINDOW_POS_X_KEY, "window-pos-x");
    assert_eq!(WINDOW_POS_Y_KEY, "window-pos-y");
    assert_eq!(WINDOW_SIZE_WIDTH_KEY, "window-size-width");
    assert_eq!(WINDOW_SIZE_HEIGHT_KEY, "window-size-height");
    assert_eq!(WINDOW_SIZE_AUTO_WIDTH_KEY, "window-size-auto-width");
    assert_eq!(WINDOW_SIZE_AUTO_HEIGHT_KEY, "window-size-auto-height");
}

#[test]
fn default_geometry() {
    assert_eq!(
        WindowRegistryInfo::default(),
        WindowRegistryInfo { x: 5, y: 0, width: 200, height: 40, auto_width: true, auto_height: true }
    );
}

#[test]
fn load_of_nothing_gives_the_defaults_and_writes_them_back() {
    let (info, backfill) = WindowRegistryInfo::load(&nothing_stored());
    assert_eq!(info, WindowRegistryInfo::default());
    assert_eq!(backfill.x, text("5"));
    assert_eq!(backfill.y, text("0"));
    assert_eq!(backfill.width, text("200"));
    assert_eq!(backfill.height, text("40"));
    assert_eq!(backfill.auto_width, Some(1));
    assert_eq!(backfill.auto_height, Some(1));
}

#[test]
fn load_reads_each_field_on_its_own() {
    let stored = StoredFields {
        x: text("-12"),
        y: text("oops"),
        width: None,
        height: text("33"),
        auto_width: Some(0),
        auto_height: Some(7),
    };
    let (info, backfill) = WindowRegistryInfo::load(&stored);
    assert_eq!(
        info,
        WindowRegistryInfo { x: -12, y: 0, width: 200, height: 33, auto_width: false, auto_height: true }
    );
    assert_eq!(backfill.x, None);
    assert_eq!(backfill.y, text("0"));
    assert_eq!(backfill.width, text("200"));
    assert_eq!(backfill.height, None);
    assert_eq!(backfill.auto_width, None);
    assert_eq!(backfill.auto_height, None);
}

#[test]
fn load_takes_no_number_with_white_space_or_out_of_range() {
    let stored = StoredFields {
        x: text(" 1"),
        y: text("2147483648"),
        width: text(""),
        height: text("+4"),
        auto_width: Some(1),
        auto_height: Some(0),
    };
    let (info, backfill) = WindowRegistryInfo::load(&stored);
    assert_eq!(
        info,
        WindowRegistryInfo { x: 5, y: 0, width: 200, height: 4, auto_width: true, auto_height: false }
    );
    assert_eq!(backfill.x, text("5"));
    assert_eq!(backfill.y, text("0"));
    assert_eq!(backfill.width, text("200"));
    assert_eq!(backfill.height, None);
}

#[test]
fn save_writes_all_six_fields() {
    let info =
        WindowRegistryInfo { x: -3, y: 14, width: 0, height: -1, auto_width: false, auto_height: true };
    let fields = info.save();
    assert_eq!(fields.x, text("-3"));
    assert_eq!(fields.y, text("14"));
    assert_eq!(fields.width, text("0"));
    assert_eq!(fields.height, text("-1"));
    assert_eq!(fields.auto_width, Some(0));
    assert_eq!(fields.auto_height, Some(1));
}

#[test]
fn save_then_load_gives_the_record_again() {
    let samples = [
        WindowRegistryInfo::default(),
        WindowRegistryInfo { x: 0, y: 0, width: 0, height: 0, auto_width: false, auto_height: false },
        WindowRegistryInfo {
            x: i32::MIN,
            y: i32::MAX,
            width: -1,
            height: 1,
            auto_width: true,
            auto_height: false,
        },
        WindowRegistryInfo { x: 120, y: -7, width: 333, height: 48, auto_width: false, auto_height: true },
    ];
    for info in samples {
        let (loaded, backfill) = WindowRegistryInfo::load(&info.save());
        assert_eq!(loaded, info);
        assert!(backfill.x.is_none() && backfill.y.is_none());
        assert!(backfill.width.is_none() && backfill.height.is_none());
        assert!(backfill.auto_width.is_none() && backfill.auto_height.is_none());
    }
}

#[test]
fn backfill_settles_the_record() {
    let stored = StoredFields {
        x: text("9"),
        y: text("junk"),
        width: None,
        height: text("12"),
        auto_width: None,
        auto_height: Some(0),
    };
    let (info, backfill) = WindowRegistryInfo::load(&stored);
    let stored = StoredFields {
        x: text("9"),
        y: text("junk"),
        width: None,
        height: text("12"),
        auto_width: None,
        auto_height: Some(0),
    };
    let (again, more) = WindowRegistryInfo::load(&written_over(stored, backfill));
    assert_eq!(again, info);
    assert!(more.x.is_none() && more.y.is_none() && more.width.is_none());
    assert!(more.height.is_none() && more.auto_width.is_none() && more.auto_height.is_none());
}

#[test]
fn apply_takes_measured_sizes_where_they_are_automatic() {
    let mut info =
        WindowRegistryInfo { x: 1, y: 2, width: 30, height: 40, auto_width: true, auto_height: false };
    let placement = info.apply(111, 222);
    assert_eq!(placement, Placement { x: 1, y: 2, width: 111, height: 40 });
    assert_eq!(
        info,
        WindowRegistryInfo { x: 1, y: 2, width: 111, height: 40, auto_width: true, auto_height: false }
    );
    let mut info =
        WindowRegistryInfo { x: 1, y: 2, width: 30, height: 40, auto_width: false, auto_height: true };
    assert_eq!(info.apply(111, 222), Placement { x: 1, y: 2, width: 30, height: 222 });
    assert_eq!(info.height, 222);
    let mut info =
        WindowRegistryInfo { x: 1, y: 2, width: 30, height: 40, auto_width: false, auto_height: false };
    assert_eq!(info.apply(111, 222), Placement { x: 1, y: 2, width: 30, height: 40 });
}

#[test]
fn initial_placement_measures_the_height_only() {
    let info =
        WindowRegistryInfo { x: 5, y: 0, width: 200, height: 40, auto_width: true, auto_height: true };
    assert_eq!(info.initial_placement(48), Placement { x: 5, y: 0, width: 200, height: 48 });
    let info = WindowRegistryInfo { auto_height: false, ..info };
    assert_eq!(info.initial_placement(48), Placement { x: 5, y: 0, width: 200, height: 40 });
}
