use vlm::colors::split_composite;
use vlm::colors::CompositeStyle;
use vlm::colors::StyleConfigurable;

struct Brackets;

impl StyleConfigurable for Brackets {
    fn apply_style(&self, style: &str, text: &str) -> String {
        format!("<{}>{}</{}>", style, text, style)
    }
}

#[test]
fn single_style_is_applied_as_it_stands() {
    assert_eq!(Brackets.apply_composite_style("red", "hi"), "<red>hi</red>");
    assert_eq!(Brackets.apply_composite_style("", "hi"), "<>hi</>");
}

#[test]
fn parameter_style_is_applied_before_the_base_style() {
    assert_eq!(
        Brackets.apply_composite_style("underline:red", "hi"),
        "<underline><red>hi</red></underline>"
    );
    assert_eq!(Brackets.apply_composite_style("mark:", "hi"), "<mark><>hi</></mark>");
}

#[test]
fn more_than_two_parts_leave_the_text_as_it_is() {
    assert_eq!(Brackets.apply_composite_style("a:b:c", "hi"), "hi");
    assert_eq!(Brackets.apply_composite_style("::", "hi"), "hi");
}

#[test]
fn split_composite_parts_at_the_separator() {
    assert!(matches!(split_composite("bold"), CompositeStyle::Single("bold")));
    assert!(matches!(
        split_composite("mark:blue"),
        CompositeStyle::Pair { base: "mark", param: "blue" }
    ));
    assert!(matches!(split_composite(":"), CompositeStyle::Pair { base: "", param: "" }));
    assert!(matches!(split_composite("a:b:c"), CompositeStyle::Malformed));
    assert!(matches!(
        split_composite("é:ü"),
        CompositeStyle::Pair { base: "é", param: "ü" }
    ));
}
