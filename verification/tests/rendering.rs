use std::fmt;
use threadalone::{ThreadAlone, ThreadKey, PLACEHOLDER};

#[derive(Clone, Copy, Debug, PartialEq)]
struct Span {
    index: u32,
}

// A payload whose `Debug` reports an error before it writes anything.
struct Unprintable;

impl fmt::Debug for Unprintable {
    fn fmt(&self, _formatter: &mut fmt::Formatter<'_>) -> fmt::Result {
        Err(fmt::Error)
    }
}

// A payload whose `Debug` reports an error after it wrote a part.
struct HalfPrinted;

impl fmt::Debug for HalfPrinted {
    fn fmt(&self, formatter: &mut fmt::Formatter<'_>) -> fmt::Result {
        formatter.write_str("half")?;
        Err(fmt::Error)
    }
}

const OWNER: ThreadKey = ThreadKey { id: 1 };
const STRANGER: ThreadKey = ThreadKey { id: 2 };

#[test]
fn placeholder_is_unknown() {
    assert_eq!(PLACEHOLDER, "unknown");
}

#[test]
fn owner_sees_the_payloads_own_rendering() {
    let cell = ThreadAlone::new(Span { index: 99 }, OWNER);
    assert_eq!(cell.debug_string(OWNER), Some(String::from("Span { index: 99 }")));
    assert_eq!(cell.debug_string(OWNER), Some(format!("{:?}", Span { index: 99 })));

    let text = ThreadAlone::new(String::from("a\"b"), OWNER);
    assert_eq!(text.debug_string(OWNER), Some(format!("{:?}", "a\"b")));

    let unit = ThreadAlone::new((), OWNER);
    assert_eq!(unit.debug_string(OWNER), Some(String::from("()")));

    let nested = ThreadAlone::new(vec![Some(1u8), None], OWNER);
    assert_eq!(nested.debug_string(OWNER), Some(String::from("[Some(1), None]")));
}

#[test]
fn stranger_sees_the_placeholder_whatever_the_payload() {
    let unknown = Some(String::from("unknown"));
    let cell = ThreadAlone::new(Span { index: 99 }, OWNER);
    assert_eq!(cell.debug_string(STRANGER), unknown);
    let other = ThreadAlone::new(Span { index: 0 }, OWNER);
    assert_eq!(other.debug_string(STRANGER), unknown);
    let text = ThreadAlone::new(String::from("secret"), OWNER);
    assert_eq!(text.debug_string(STRANGER), unknown);
    let nested = ThreadAlone::new(vec![Some(1u8), None], OWNER);
    assert_eq!(nested.debug_string(ThreadKey { id: 3 }).as_deref(), Some(PLACEHOLDER));
}

#[test]
fn emptied_cell_renders_the_placeholder() {
    let mut cell = ThreadAlone::new(Span { index: 99 }, OWNER);
    assert_eq!(cell.take(OWNER), Some(Span { index: 99 }));
    assert_eq!(cell.debug_string(OWNER), Some(String::from("unknown")));
}

#[test]
fn owner_is_handed_the_payloads_formatting_error() {
    let cell = ThreadAlone::new(Unprintable, OWNER);
    assert_eq!(cell.debug_string(OWNER), None);

    let half = ThreadAlone::new(HalfPrinted, OWNER);
    assert_eq!(half.debug_string(OWNER), None);
}

#[test]
fn stranger_never_meets_the_payloads_formatting_error() {
    let cell = ThreadAlone::new(Unprintable, OWNER);
    assert_eq!(cell.debug_string(STRANGER), Some(String::from("unknown")));

    let half = ThreadAlone::new(HalfPrinted, OWNER);
    assert_eq!(half.debug_string(STRANGER), Some(String::from("unknown")));
}

#[test]
fn format_with_calls_the_renderer_on_the_owner_thread() {
    let cell = ThreadAlone::new(Span { index: 99 }, OWNER);
    let text = cell.format_with(OWNER, |span: &Span| format!("#{}", span.index));
    assert_eq!(text, "#99");
}

#[test]
fn format_with_skips_the_renderer_elsewhere() {
    let cell = ThreadAlone::new(Span { index: 99 }, OWNER);
    let text = cell.format_with(STRANGER, |_: &Span| -> String {
        panic!("the payload was rendered for a thread that may not see it")
    });
    assert_eq!(text, "unknown");
}
