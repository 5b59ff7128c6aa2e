use niri_config::Decimal;
use niri_config::Key;
use niri_config::KeyTable;
use niri_config::Mode;
use niri_config::SizeChange;
use niri_config::Transform;

fn dec(neg: bool, mantissa: u64, scale: i64) -> Decimal {
    Decimal {
        neg,
        mantissa,
        scale,
    }
}

#[test]
fn parse_mode() {
    assert_eq!(
        Mode::parse("2560x1600@165.004").unwrap(),
        Mode {
            width: 2560,
            height: 1600,
            refresh: Some(dec(false, 165004, 3)),
        },
    );

    assert_eq!(
        Mode::parse("1920x1080").unwrap(),
        Mode {
            width: 1920,
            height: 1080,
            refresh: None,
        },
    );

    assert!(Mode::parse("1920").is_err());
    assert!(Mode::parse("1920x").is_err());
    assert!(Mode::parse("1920x1080@").is_err());
    assert!(Mode::parse("1920x1080@60Hz").is_err());
}

#[test]
fn parse_mode_messages() {
    assert_eq!(Mode::parse("1920").unwrap_err(), "no 'x' separator found");
    assert_eq!(Mode::parse("ax1080").unwrap_err(), "error parsing width");
    assert_eq!(Mode::parse("1920x").unwrap_err(), "error parsing height");
    assert_eq!(
        Mode::parse("1920x1080@60Hz").unwrap_err(),
        "error parsing refresh rate"
    );
}

#[test]
fn parse_mode_requires_positive_values() {
    assert_eq!(Mode::parse("0x1080").unwrap_err(), "width must be positive");
    assert_eq!(Mode::parse("1920x0").unwrap_err(), "height must be positive");
    assert_eq!(
        Mode::parse("1920x1080@0").unwrap_err(),
        "refresh rate must be positive"
    );
    assert_eq!(
        Mode::parse("1920x1080@0.0").unwrap_err(),
        "refresh rate must be positive"
    );
    assert_eq!(
        Mode::parse("1920x1080@-60").unwrap_err(),
        "refresh rate must be positive"
    );
}

#[test]
fn parse_size_change() {
    assert_eq!(SizeChange::parse("10").unwrap(), SizeChange::SetFixed(10));
    assert_eq!(
        SizeChange::parse("+10").unwrap(),
        SizeChange::AdjustFixed(10)
    );
    assert_eq!(
        SizeChange::parse("-10").unwrap(),
        SizeChange::AdjustFixed(-10)
    );
    assert_eq!(
        SizeChange::parse("10%").unwrap(),
        SizeChange::SetProportion(Decimal::from_integer(10))
    );
    assert_eq!(
        SizeChange::parse("+10%").unwrap(),
        SizeChange::AdjustProportion(Decimal::from_integer(10))
    );
    assert_eq!(
        SizeChange::parse("-10%").unwrap(),
        SizeChange::AdjustProportion(dec(true, 1, -1))
    );

    assert!(SizeChange::parse("-").is_err());
    assert!(SizeChange::parse("10% ").is_err());
}

#[test]
fn parse_size_change_messages() {
    assert_eq!(
        SizeChange::parse("10% ").unwrap_err(),
        "trailing characters after '%' are not allowed"
    );
    assert_eq!(SizeChange::parse("").unwrap_err(), "value is missing");
    assert_eq!(SizeChange::parse("%").unwrap_err(), "value is missing");
    assert_eq!(SizeChange::parse("-").unwrap_err(), "error parsing value");
}

#[test]
fn transform_round_trip() {
    let names = [
        "normal",
        "90",
        "180",
        "270",
        "flipped",
        "flipped-90",
        "flipped-180",
        "flipped-270",
    ];
    for name in names {
        let t = Transform::parse(name).unwrap();
        assert_eq!(t.name(), name);
    }
}

#[test]
fn transform_invalid() {
    assert!(Transform::parse("flipped-45").is_err());
    assert!(Transform::parse("Normal").is_err());
    assert!(Transform::parse("").is_err());
    assert_eq!(
        Transform::parse("bad").unwrap_err(),
        "invalid transform, can be \"normal\", \"90\", \"180\", \"270\", \
         \"flipped\", \"flipped-90\", \"flipped-180\" or \"flipped-270\""
    );
}

fn test_table() -> KeyTable {
    let mut t = KeyTable::new();
    t.push("t".to_owned(), 0x74);
    t.push("q".to_owned(), 0x71);
    t.push("h".to_owned(), 0x68);
    t.push("l".to_owned(), 0x6C);
    t.push("e".to_owned(), 0x65);
    t.push("comma".to_owned(), 0x2C);
    t.push("1".to_owned(), 0x31);
    t.push("2".to_owned(), 0x32);
    t.push("Left".to_owned(), 0xFF51);
    t.push("Right".to_owned(), 0xFF53);
    t
}

#[test]
fn key_chord_modifiers() {
    let table = test_table();

    let k = Key::parse("Mod+Shift+L", &table).unwrap();
    assert_eq!(
        k.modifiers.bits,
        niri_config::key::MOD_COMPOSITOR | niri_config::key::MOD_SHIFT
    );
    assert_eq!(k.keysym, 0x6C);

    let k = Key::parse("Mod+Ctrl+Shift+L", &table).unwrap();
    assert_eq!(
        k.modifiers.bits,
        niri_config::key::MOD_COMPOSITOR | niri_config::key::MOD_SHIFT | niri_config::key::MOD_CTRL
    );
    assert_eq!(k.keysym, 0x6C);
}

#[test]
fn key_chord_aliases_and_errors() {
    let table = test_table();

    let k = Key::parse("control+win+T", &table).unwrap();
    assert_eq!(
        k.modifiers.bits,
        niri_config::key::MOD_CTRL | niri_config::key::MOD_SUPER
    );
    assert_eq!(k.keysym, 0x74);

    let k = Key::parse("Comma", &table).unwrap();
    assert_eq!(k.modifiers.bits, 0);
    assert_eq!(k.keysym, 0x2C);

    assert_eq!(
        Key::parse("Hyper+T", &table).unwrap_err(),
        "invalid modifier: Hyper"
    );
    assert_eq!(
        Key::parse("Mod+Escape", &table).unwrap_err(),
        "invalid key: Escape"
    );
}

#[test]
fn key_chord_trims_modifiers_only() {
    let table = test_table();

    // Whitespace around modifier names is stripped; the key name is not.
    let k = Key::parse(" shift + t", &table);
    assert!(k.is_err(), "the key part ` t` must not be trimmed");
    let k = Key::parse(" shift +t", &table).unwrap();
    assert_eq!(k.modifiers.bits, niri_config::key::MOD_SHIFT);
    assert_eq!(k.keysym, 0x74);
}

#[test]
fn decimal_forms() {
    assert_eq!(Mode::parse("1x1@2.0").unwrap().refresh, Some(dec(false, 2, 0)));
    assert_eq!(Mode::parse("1x1@0.25").unwrap().refresh, Some(dec(false, 25, 2)));
    assert_eq!(Mode::parse("1x1@.5").unwrap().refresh, Some(dec(false, 5, 1)));
    assert_eq!(Mode::parse("1x1@5.").unwrap().refresh, Some(dec(false, 5, 0)));
    assert_eq!(Mode::parse("1x1@1e3").unwrap().refresh, Some(dec(false, 1, -3)));
    assert_eq!(
        Mode::parse("1x1@1.5e-2").unwrap().refresh,
        Some(dec(false, 15, 3))
    );
    assert!(Mode::parse("1x1@.").is_err());
    assert!(Mode::parse("1x1@1e").is_err());
    assert!(Mode::parse("1x1@1.2.3").is_err());
}
