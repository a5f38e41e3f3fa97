use laravox::engine_macro::{push_info, Class, Function, Module, Value, ValueKind};
use laravox::text::is_white_space;

fn value(name: &str, info: &str, kind: ValueKind, optional: Option<bool>) -> Value {
    Value {
        name: name.to_string(),
        info: info.to_string(),
        kind,
        optional,
    }
}

fn user_data(name: &str) -> ValueKind {
    ValueKind::UserData {
        name: name.to_string(),
    }
}

#[test]
fn value_name_marks_optional() {
    assert_eq!(value("path", "Path.", ValueKind::String, Some(true)).get_name(), "path?");
    assert_eq!(value("path", "Path.", ValueKind::String, Some(false)).get_name(), "path");
    assert_eq!(value("path", "Path.", ValueKind::String, None).get_name(), "path");
}

#[test]
fn value_kind_marks_optional() {
    assert_eq!(
        value("kind", "Path kind.", user_data("PathKind"), Some(true)).get_kind(),
        "PathKind|nil"
    );
    assert_eq!(value("x", "X.", ValueKind::Number, Some(false)).get_kind(), "number");
    assert_eq!(value("x", "X.", ValueKind::Boolean, None).get_kind(), "boolean");
}

#[test]
fn kind_words() {
    let cases = vec![
        (ValueKind::String, "string"),
        (ValueKind::Number, "number"),
        (ValueKind::Boolean, "boolean"),
        (ValueKind::Function, "function"),
        (ValueKind::Table, "table"),
        (ValueKind::Vector2, "Vector2"),
        (ValueKind::Vector3, "Vector3"),
        (ValueKind::Box2, "Box2"),
        (ValueKind::Box3, "Box3"),
        (ValueKind::Camera2D, "Camera2D"),
        (ValueKind::Camera3D, "Camera3D"),
        (ValueKind::Color, "Color"),
        (user_data("table|string"), "table|string"),
    ];
    for (kind, word) in cases {
        assert_eq!(kind.fmt(), word);
    }
}

fn font_new() -> Function {
    Function {
        from: "font".to_string(),
        info: "Create a new Font resource.".to_string(),
        parameter: vec![
            value("path", "Path to font.", ValueKind::String, None),
            value("scale", "Font scale.", ValueKind::Number, None),
            value("range", "Font code-point range.", ValueKind::Number, Some(true)),
        ],
        result: vec![value("font", "Font resource.", user_data("Font"), None)],
    }
}

#[test]
fn function_write_text() {
    let out = font_new().write("new", false);
    assert_eq!(out.path, "function_laravox.font.new");
    assert_eq!(
        out.data,
        "---Create a new Font resource.\n\
         ---@param path string # Path to font.\n\
         ---@param scale number # Font scale.\n\
         ---@param range? number # Font code-point range.\n\
         ---@return Font font # Font resource.\n\
         function laravox.font.new(path, scale, range) end\n"
    );
}

#[test]
fn method_write_text() {
    let function = Function {
        from: "Font".to_string(),
        info: "Calculate the scale of text.".to_string(),
        parameter: vec![
            value("text", "Text to evaluate.", ValueKind::String, None),
            value("space", "Space of text to evaluate.", ValueKind::Number, None),
        ],
        result: vec![
            value("scale", "Scale of text.", ValueKind::Vector2, None),
            value("kind", "Path kind.", user_data("PathKind"), Some(true)),
        ],
    };
    let out = function.write("measure", true);
    assert_eq!(out.path, "function_Font.measure");
    assert_eq!(
        out.data,
        "---Calculate the scale of text.\n\
         ---@param text string # Text to evaluate.\n\
         ---@param space number # Space of text to evaluate.\n\
         ---@return Vector2 scale # Scale of text.\n\
         ---@return PathKind|nil kind # Path kind.\n\
         function Font:measure(text, space) end\n"
    );
}

#[test]
fn function_without_values() {
    let function = Function {
        from: "data".to_string(),
        info: "Get the current OS.".to_string(),
        parameter: vec![],
        result: vec![],
    };
    let out = function.write("get_system", false);
    assert_eq!(out.path, "function_laravox.data.get_system");
    assert_eq!(
        out.data,
        "---Get the current OS.\nfunction laravox.data.get_system() end\n"
    );
}

#[test]
fn info_lines_trimmed() {
    let mut out = String::from("x");
    push_info(&mut out, "  First line.  \r\n\tSecond line.\n\nLast\t");
    assert_eq!(out, "x---First line.\n---Second line.\n---\n---Last\n");
}

#[test]
fn info_empty_gives_no_line() {
    let mut out = String::new();
    push_info(&mut out, "");
    assert_eq!(out, "");
    push_info(&mut out, "   ");
    assert_eq!(out, "---\n");
}

#[test]
fn final_line_ending_changes_nothing() {
    let mut with = String::new();
    let mut without = String::new();
    push_info(&mut with, "Draw text.\nWith wrap.\n");
    push_info(&mut without, "Draw text.\nWith wrap.");
    assert_eq!(with, without);
    assert_eq!(with, "---Draw text.\n---With wrap.\n");
}

#[test]
fn single_line_info() {
    let mut out = String::new();
    push_info(&mut out, " one line ");
    assert_eq!(out, "---one line\n");
}

#[test]
fn class_write_text() {
    let class = Class {
        name: None,
        info: "Font class.".to_string(),
    };
    let out = class.write("Font");
    assert_eq!(out.path, "class_Font");
    assert_eq!(out.data, "---Font class.\n---@class Font\nFont = {}");

    let named = Class {
        name: Some("Image".to_string()),
        info: "Image class.".to_string(),
    };
    let out = named.write("Texture");
    assert_eq!(out.path, "class_Image");
    assert_eq!(out.data, "---Image class.\n---@class Image\nImage = {}");
}

#[test]
fn module_write_text() {
    let module = Module {
        name: "font".to_string(),
        info: "Font API.".to_string(),
    };
    let out = module.write();
    assert_eq!(out.path, "module_font");
    assert_eq!(out.data, "---Font API.\nlaravox.font = {}");
}

#[test]
fn white_space_as_std_says() {
    for v in 0u32..=0x10FFFF {
        if let Some(c) = char::from_u32(v) {
            assert_eq!(is_white_space(c), c.is_whitespace(), "U+{:04X}", v);
        }
    }
}
