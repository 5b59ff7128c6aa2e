use niri_config::Action;
use niri_config::Bind;
use niri_config::Binds;
use niri_config::Color;
use niri_config::Config;
use niri_config::Cursor;
use niri_config::DebugConfig;
use niri_config::Decimal;
use niri_config::DefaultColumnWidth;
use niri_config::FocusRing;
use niri_config::HotkeyOverlay;
use niri_config::Input;
use niri_config::Key;
use niri_config::KeyTable;
use niri_config::Keyboard;
use niri_config::Layout;
use niri_config::Mode;
use niri_config::Modifiers;
use niri_config::Mouse;
use niri_config::Output;
use niri_config::Position;
use niri_config::PresetWidth;
use niri_config::SpawnAtStartup;
use niri_config::Struts;
use niri_config::Tablet;
use niri_config::Touchpad;
use niri_config::TrackLayout;
use niri_config::Transform;
use niri_config::Xkb;
use niri_config::AccelProfile;
use niri_config::CenterFocusedColumn;
use niri_config::TapButtonMap;
use niri_config::key::MOD_COMPOSITOR;
use niri_config::key::MOD_CTRL;
use niri_config::key::MOD_SHIFT;

fn dec(neg: bool, mantissa: u64, scale: i64) -> Decimal {
    Decimal {
        neg,
        mantissa,
        scale,
    }
}

fn test_table() -> KeyTable {
    let mut t = KeyTable::new();
    t.push("t".to_owned(), 0x74);
    t.push("q".to_owned(), 0x71);
    t.push("h".to_owned(), 0x68);
    t.push("l".to_owned(), 0x6C);
    t.push("e".to_owned(), 0x65);
    t.push("comma".to_owned(), 0x2C);
    t.push("1".to_owned(), 0x31);
    t.push("2".to_owned(), 0x32);
    t.push("Left".to_owned(), 0xFF51);
    t.push("Right".to_owned(), 0xFF53);
    t
}

fn check(text: &str, expected: Config) {
    let parsed = Config::parse("test.kdl", text, &test_table()).unwrap();
    assert_eq!(parsed, expected);
}

#[test]
fn parse() {
    check(
        r#"
        input {
            keyboard {
                repeat-delay 600
                repeat-rate 25
                track-layout "window"
                xkb {
                    layout "us,ru"
                    options "grp:win_space_toggle"
                }
            }

            touchpad {
                tap
                dwt
                accel-speed 0.2
                accel-profile "flat"
                tap-button-map "left-middle-right"
            }

            mouse {
                natural-scroll
                accel-speed 0.4
                accel-profile "flat"
            }

            tablet {
                map-to-output "eDP-1"
            }

            disable-power-key-handling
        }

        output "eDP-1" {
            scale 2.0
            transform "flipped-90"
            position x=10 y=20
            mode "1920x1080@144"
        }

        layout {
            focus-ring {
                width 5
                active-color 0 100 200 255
                inactive-color 255 200 100 0
            }

            border {
                width 3
                active-color 0 100 200 255
                inactive-color 255 200 100 0
            }

            preset-column-widths {
                proportion 0.25
                proportion 0.5
                fixed 960
                fixed 1280
            }

            default-column-width { proportion 0.25; }

            gaps 8

            struts {
                left 1
                right 2
                top 3
            }

            center-focused-column "on-overflow"
        }

        spawn-at-startup "alacritty" "-e" "fish"

        prefer-no-csd

        cursor {
            xcursor-theme "breeze_cursors"
            xcursor-size 16
        }

        screenshot-path "~/Screenshots/screenshot.png"

        hotkey-overlay {
            skip-at-startup
        }

        binds {
            Mod+T { spawn "alacritty"; }
            Mod+Q { close-window; }
            Mod+Shift+H { focus-monitor-left; }
            Mod+Ctrl+Shift+L { move-window-to-monitor-right; }
            Mod+Comma { consume-window-into-column; }
            Mod+1 { focus-workspace 1;}
        }

        debug {
            animation-slowdown 2.0
            render-drm-device "/dev/dri/renderD129"
        }
        "#,
        Config {
            input: Input {
                keyboard: Keyboard {
                    xkb: Xkb {
                        layout: Some("us,ru".to_owned()),
                        options: Some("grp:win_space_toggle".to_owned()),
                        ..Default::default()
                    },
                    repeat_delay: 600,
                    repeat_rate: 25,
                    track_layout: TrackLayout::Window,
                },
                touchpad: Touchpad {
                    tap: true,
                    dwt: true,
                    natural_scroll: false,
                    accel_speed: dec(false, 2, 1),
                    accel_profile: Some(AccelProfile::Flat),
                    tap_button_map: Some(TapButtonMap::LeftMiddleRight),
                },
                mouse: Mouse {
                    natural_scroll: true,
                    accel_speed: dec(false, 4, 1),
                    accel_profile: Some(AccelProfile::Flat),
                },
                tablet: Tablet {
                    map_to_output: Some("eDP-1".to_owned()),
                },
                disable_power_key_handling: true,
            },
            outputs: vec![Output {
                off: false,
                name: "eDP-1".to_owned(),
                scale: dec(false, 2, 0),
                transform: Transform::Flipped90,
                position: Some(Position { x: 10, y: 20 }),
                mode: Some(Mode {
                    width: 1920,
                    height: 1080,
                    refresh: Some(dec(false, 144, 0)),
                }),
            }],
            layout: Layout {
                focus_ring: FocusRing {
                    off: false,
                    width: 5,
                    active_color: Color {
                        r: 0,
                        g: 100,
                        b: 200,
                        a: 255,
                    },
                    inactive_color: Color {
                        r: 255,
                        g: 200,
                        b: 100,
                        a: 0,
                    },
                },
                border: FocusRing {
                    off: false,
                    width: 3,
                    active_color: Color {
                        r: 0,
                        g: 100,
                        b: 200,
                        a: 255,
                    },
                    inactive_color: Color {
                        r: 255,
                        g: 200,
                        b: 100,
                        a: 0,
                    },
                },
                preset_column_widths: vec![
                    PresetWidth::Proportion(dec(false, 25, 2)),
                    PresetWidth::Proportion(dec(false, 5, 1)),
                    PresetWidth::Fixed(960),
                    PresetWidth::Fixed(1280),
                ],
                default_column_width: Some(DefaultColumnWidth(vec![PresetWidth::Proportion(
                    dec(false, 25, 2),
                )])),
                gaps: 8,
                struts: Struts {
                    left: 1,
                    right: 2,
                    top: 3,
                    bottom: 0,
                },
                center_focused_column: CenterFocusedColumn::OnOverflow,
            },
            spawn_at_startup: vec![SpawnAtStartup {
                command: vec!["alacritty".to_owned(), "-e".to_owned(), "fish".to_owned()],
            }],
            prefer_no_csd: true,
            cursor: Cursor {
                xcursor_theme: String::from("breeze_cursors"),
                xcursor_size: 16,
            },
            screenshot_path: Some(String::from("~/Screenshots/screenshot.png")),
            hotkey_overlay: HotkeyOverlay {
                skip_at_startup: true,
            },
            binds: Binds(vec![
                Bind {
                    key: Key {
                        keysym: 0x74,
                        modifiers: Modifiers {
                            bits: MOD_COMPOSITOR,
                        },
                    },
                    actions: vec![Action::Spawn(vec!["alacritty".to_owned()])],
                },
                Bind {
                    key: Key {
                        keysym: 0x71,
                        modifiers: Modifiers {
                            bits: MOD_COMPOSITOR,
                        },
                    },
                    actions: vec![Action::CloseWindow],
                },
                Bind {
                    key: Key {
                        keysym: 0x68,
                        modifiers: Modifiers {
                            bits: MOD_COMPOSITOR | MOD_SHIFT,
                        },
                    },
                    actions: vec![Action::FocusMonitorLeft],
                },
                Bind {
                    key: Key {
                        keysym: 0x6C,
                        modifiers: Modifiers {
                            bits: MOD_COMPOSITOR | MOD_SHIFT | MOD_CTRL,
                        },
                    },
                    actions: vec![Action::MoveWindowToMonitorRight],
                },
                Bind {
                    key: Key {
                        keysym: 0x2C,
                        modifiers: Modifiers {
                            bits: MOD_COMPOSITOR,
                        },
                    },
                    actions: vec![Action::ConsumeWindowIntoColumn],
                },
                Bind {
                    key: Key {
                        keysym: 0x31,
                        modifiers: Modifiers {
                            bits: MOD_COMPOSITOR,
                        },
                    },
                    actions: vec![Action::FocusWorkspace(1)],
                },
            ]),
            debug: DebugConfig {
                animation_slowdown: dec(false, 2, 0),
                render_drm_device: Some(String::from("/dev/dri/renderD129")),
                ..Default::default()
            },
        },
    );
}

#[test]
fn can_create_default_config() {
    let config = Config::load_default(&test_table());
    assert!(config.is_ok());
}

#[test]
fn output_fields_decode_exactly() {
    let config = Config::parse(
        "test.kdl",
        "output \"HDMI-A-1\" {\n scale 2.0\n transform \"flipped-90\"\n position x=10 y=20\n mode \"1920x1080@144\"\n}\n",
        &test_table(),
    )
    .unwrap();
    assert_eq!(
        config.outputs,
        vec![Output {
            off: false,
            name: "HDMI-A-1".to_owned(),
            scale: dec(false, 2, 0),
            transform: Transform::Flipped90,
            position: Some(Position { x: 10, y: 20 }),
            mode: Some(Mode {
                width: 1920,
                height: 1080,
                refresh: Some(dec(false, 144, 0)),
            }),
        }]
    );
}

#[test]
fn bind_focus_workspace() {
    let config = Config::parse(
        "test.kdl",
        "binds {\n Mod+1 { focus-workspace 1; }\n}\n",
        &test_table(),
    )
    .unwrap();
    assert_eq!(config.binds.0.len(), 1);
    let bind = &config.binds.0[0];
    assert_eq!(
        bind.key,
        Key {
            keysym: 0x31,
            modifiers: Modifiers {
                bits: MOD_COMPOSITOR,
            },
        }
    );
    assert_eq!(bind.actions, vec![Action::FocusWorkspace(1)]);
}

#[test]
fn decode_errors() {
    let table = test_table();
    // Unknown top-level node.
    assert!(Config::parse("t.kdl", "no-such-section\n", &table).is_err());
    // Duplicate single-valued section.
    assert!(Config::parse("t.kdl", "cursor {\n}\ncursor {\n}\n", &table).is_err());
    // Argument arity.
    assert!(Config::parse("t.kdl", "layout {\n gaps 1 2\n}\n", &table).is_err());
    // Wrong scalar kind.
    assert!(Config::parse("t.kdl", "layout {\n gaps \"a\"\n}\n", &table).is_err());
    // Integer out of range for the field.
    assert!(Config::parse("t.kdl", "layout {\n gaps 100000\n}\n", &table).is_err());
    // A decimal field refuses an integer literal.
    assert!(Config::parse("t.kdl", "output \"x\" {\n scale 2\n}\n", &table).is_err());
    // Reserved actions cannot be named in a document.
    assert!(Config::parse("t.kdl", "binds {\n Mod+T { change-vt 1; }\n}\n", &table).is_err());
    assert!(Config::parse("t.kdl", "binds {\n Mod+T { confirm-screenshot; }\n}\n", &table).is_err());
    // Unknown modifier and unknown key.
    assert!(Config::parse("t.kdl", "binds {\n Hyper+T { quit; }\n}\n", &table).is_err());
    assert!(Config::parse("t.kdl", "binds {\n Mod+NoSuchKey { quit; }\n}\n", &table).is_err());
    // Syntax error in the document text itself.
    assert!(Config::parse("t.kdl", "output \"unterminated\n", &table).is_err());
}

#[test]
fn underscores_in_number_literals_are_ignored() {
    let config = Config::parse(
        "t.kdl",
        "output \"x\" {\n scale 1_0.5\n}\n",
        &test_table(),
    )
    .unwrap();
    assert_eq!(config.outputs[0].scale, dec(false, 105, 1));
}

#[test]
fn non_positive_scale_is_rejected() {
    let table = test_table();
    assert!(Config::parse("t.kdl", "output \"x\" {\n scale 0.0\n}\n", &table).is_err());
    assert!(Config::parse("t.kdl", "output \"x\" {\n scale -1.0\n}\n", &table).is_err());
}

#[test]
fn huge_integer_literal_is_rejected() {
    let table = test_table();
    assert!(Config::parse(
        "t.kdl",
        "layout {\n gaps 99999999999999999999999\n}\n",
        &table
    )
    .is_err());
}

#[test]
fn repeated_property_keeps_last_value() {
    let config = Config::parse(
        "t.kdl",
        "output \"x\" {\n position x=1 x=10 y=20\n}\n",
        &test_table(),
    )
    .unwrap();
    assert_eq!(config.outputs[0].position, Some(Position { x: 10, y: 20 }));
}

#[test]
fn absent_sections_use_defaults() {
    let config = Config::parse("t.kdl", "", &test_table()).unwrap();
    assert_eq!(config.input, Input::default());
    assert_eq!(config.layout, Layout::default());
    assert_eq!(config.cursor, Cursor::default());
    assert_eq!(
        config.screenshot_path,
        Some(String::from(
            "~/Pictures/Screenshots/Screenshot from %Y-%m-%d %H-%M-%S.png"
        ))
    );
    assert!(!config.prefer_no_csd);
    assert_eq!(config.binds, Binds(vec![]));
    assert_eq!(config.debug, DebugConfig::default());
    assert_eq!(config.outputs, vec![]);
}

#[test]
fn border_starts_disabled() {
    let config = Config::parse("t.kdl", "", &test_table()).unwrap();
    assert!(config.layout.border.off);
    assert!(!config.layout.focus_ring.off);
    assert_eq!(niri_config::default_border().width, 4);
}
