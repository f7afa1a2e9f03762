use rslprompt::formatting::{to_superscript, Color};

#[test]
fn superscript_digits_and_letters() {
    assert_eq!(to_superscript("0123456789"), "⁰¹²³⁴⁵⁶⁷⁸⁹");
    assert_eq!(to_superscript("PMBRr"), "ᴾᴹᴮᴿʳ");
    assert_eq!(to_superscript("XYZq"), "    ");
    assert_eq!(to_superscript("a-b!"), "ᵃ-ᵇ!");
    assert_eq!(to_superscript(""), "");
}

#[test]
fn superscript_twice_is_superscript_once() {
    let once = to_superscript("Stash 42 xyz");
    assert_eq!(to_superscript(&once), once);
}

#[test]
fn superscript_of_concatenation() {
    let a = "12";
    let b = "ab";
    let joined = format!("{}{}", a, b);
    assert_eq!(to_superscript(&joined), format!("{}{}", to_superscript(a), to_superscript(b)));
}

#[test]
fn color_codes_and_activation() {
    assert_eq!(Color::Red.code(), "\x1b[31m");
    assert_eq!(Color::Default.code(), "\x1b[0m");
    assert_eq!(Color::Inherit.code(), "");
    assert_eq!(Color::Green.activate(), "%{\x1b[32m%}");
    assert_eq!(Color::White.activate(), "%{\x1b[37m%}");
    assert_eq!(Color::Inherit.activate(), "");
    assert!(Color::reset() == Color::Default);
}
