//! The configuration front end of a desktop session component: a generic
//! document tree (parsed from KDL text) is decoded against a fixed schema
//! into a validated, strongly typed configuration tree.  Every decode rule
//! and every scalar grammar is stated as a specification function, and the
//! decoder is proved to follow it exactly.

use vstd::prelude::*;

pub mod action;
pub mod color;
pub mod config;
pub mod decode;
pub mod doc;
pub mod enums;
pub mod front;
pub mod key;
pub mod mode;
pub mod num;
pub mod sizechange;
pub mod text;
pub mod transform;

pub use action::Action;
pub use color::Color;
pub use color::PremulColor;
pub use config::Bind;
pub use config::Binds;
pub use config::Config;
pub use config::Cursor;
pub use config::DebugConfig;
pub use config::DefaultColumnWidth;
pub use config::FocusRing;
pub use config::HotkeyOverlay;
pub use config::Input;
pub use config::Keyboard;
pub use config::Layout;
pub use config::Mouse;
pub use config::Output;
pub use config::Position;
pub use config::PresetWidth;
pub use config::SpawnAtStartup;
pub use config::Struts;
pub use config::Tablet;
pub use config::Touchpad;
pub use config::Xkb;
pub use config::default_border;
pub use doc::DecodeError;
pub use doc::DocNode;
pub use doc::Prop;
pub use doc::Scalar;
pub use enums::AccelProfile;
pub use enums::CenterFocusedColumn;
pub use enums::LayoutAction;
pub use enums::TapButtonMap;
pub use enums::TrackLayout;
pub use key::Key;
pub use key::KeyEntry;
pub use key::KeyTable;
pub use key::Modifiers;
pub use mode::Mode;
pub use num::Decimal;
pub use sizechange::SizeChange;
pub use transform::Transform;

verus! {

/// A configuration load failure: either the text is not a well-formed
/// document, or the document does not fit the schema.  A syntax failure
/// carries the parser's rendered report as text (the parser does not
/// expose its spans); a decode failure carries the byte span of the
/// offending node.
#[derive(Debug, PartialEq, Eq)]
pub enum ConfigError {
    Parse(String),
    Decode(DecodeError),
}

impl Config {
    /// Parse document text and decode it against the schema.  Key chords
    /// in `binds` resolve through `keys`, the system key-symbol table
    /// supplied at the library boundary.  The call succeeds exactly when
    /// the text parses (`front::parsed_doc`) and the parsed document fits
    /// the schema, and the result is exactly its schema decoding.
    pub fn parse(filename: &str, text: &str, keys: &KeyTable) -> (r: Result<Config, ConfigError>)
        ensures
            r is Ok <==> (front::parsed_doc(filename@, text@) matches Some(d)
                && decode::spec_config(d, keys.entries@) is Some),
            r matches Ok(c) ==> (front::parsed_doc(filename@, text@) matches Some(d)
                && decode::spec_config(d, keys.entries@) == Some(c@)),
    {
        match front::parse_document(filename, text) {
            Err(e) => Err(ConfigError::Parse(e)),
            Ok(doc) => match decode::decode_config(&doc, keys) {
                Ok(c) => Ok(c),
                Err(e) => Err(ConfigError::Decode(e)),
            },
        }
    }

    /// Decode an already-parsed document, per `decode::spec_config`.
    pub fn from_document(doc: &Vec<DocNode>, keys: &KeyTable) -> (r: Result<Config, DecodeError>)
        ensures
            r is Ok <==> decode::spec_config(doc@, keys.entries@) is Some,
            r matches Ok(c) ==> decode::spec_config(doc@, keys.entries@) == Some(c@),
    {
        decode::decode_config(doc, keys)
    }

    /// The baked-in default document, decoded through the same schema
    /// decoder as user documents; its chords resolve through `keys`.  The
    /// call succeeds exactly when the built-in text parses and fits the
    /// schema, and the result is exactly its schema decoding.
    pub fn load_default(keys: &KeyTable) -> (r: Result<Config, ConfigError>)
        ensures
            r is Ok <==> (front::parsed_doc("default-config.kdl"@, default_config_chars())
                matches Some(d) && decode::spec_config(d, keys.entries@) is Some),
            r matches Ok(c) ==> (front::parsed_doc("default-config.kdl"@, default_config_chars())
                matches Some(d) && decode::spec_config(d, keys.entries@) == Some(c@)),
    {
        Config::parse("default-config.kdl", default_config_text(), keys)
    }
}

/// The text of the built-in default document.
pub open spec fn default_config_chars() -> Seq<char> {
    "input {\n    keyboard {\n        repeat-delay 600\n        repeat-rate 25\n    }\n    touchpad {\n        tap\n        natural-scroll\n    }\n}\n\nlayout {\n    gaps 16\n    focus-ring {\n        width 4\n        active-color 127 200 255 255\n        inactive-color 80 80 80 255\n    }\n    border {\n        off\n    }\n    preset-column-widths {\n        proportion 0.5\n        fixed 960\n    }\n    default-column-width { proportion 0.5; }\n}\n\nscreenshot-path \"~/Pictures/Screenshots/Screenshot from %Y-%m-%d %H-%M-%S.png\"\n\nbinds {\n    Mod+T { spawn \"alacritty\"; }\n    Mod+Q { close-window; }\n    Mod+Left { focus-column-left; }\n    Mod+Right { focus-column-right; }\n    Mod+1 { focus-workspace 1; }\n    Mod+2 { focus-workspace 2; }\n    Mod+Shift+E { quit; }\n}\n"@
}

/// The built-in default document.
pub fn default_config_text() -> (r: &'static str)
    ensures
        r@ == default_config_chars(),
{
    "input {\n    keyboard {\n        repeat-delay 600\n        repeat-rate 25\n    }\n    touchpad {\n        tap\n        natural-scroll\n    }\n}\n\nlayout {\n    gaps 16\n    focus-ring {\n        width 4\n        active-color 127 200 255 255\n        inactive-color 80 80 80 255\n    }\n    border {\n        off\n    }\n    preset-column-widths {\n        proportion 0.5\n        fixed 960\n    }\n    default-column-width { proportion 0.5; }\n}\n\nscreenshot-path \"~/Pictures/Screenshots/Screenshot from %Y-%m-%d %H-%M-%S.png\"\n\nbinds {\n    Mod+T { spawn \"alacritty\"; }\n    Mod+Q { close-window; }\n    Mod+Left { focus-column-left; }\n    Mod+Right { focus-column-right; }\n    Mod+1 { focus-workspace 1; }\n    Mod+2 { focus-workspace 2; }\n    Mod+Shift+E { quit; }\n}\n"
}

} // verus!
